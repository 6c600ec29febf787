//! Character-sequence helpers shared by the detector: splitting a name at
//! a separator and comparing names for equality.

use vstd::prelude::*;

verus! {

/// The characters of `s` strictly before its first occurrence of `c`;
/// all of `s` when `c` does not occur.
pub open spec fn before_first(s: Seq<char>, c: char) -> Seq<char>
    decreases s.len(),
{
    if s.len() == 0 {
        s
    } else if s[0] == c {
        Seq::empty()
    } else {
        seq![s[0]] + before_first(s.drop_first(), c)
    }
}

/// The characters of `s` strictly after its last occurrence of `c`;
/// all of `s` when `c` does not occur.
pub open spec fn after_last(s: Seq<char>, c: char) -> Seq<char>
    decreases s.len(),
{
    if s.len() == 0 {
        s
    } else if s[s.len() - 1] == c {
        Seq::empty()
    } else {
        after_last(s.drop_last(), c).push(s[s.len() - 1])
    }
}

/// The view of an optional string, for contracts over optional inputs.
pub open spec fn opt_chars(o: Option<String>) -> Option<Seq<char>> {
    match o {
        Some(s) => Some(s@),
        None => None,
    }
}

/// When no occurrence of `c` lies before position `i` and `i` is either an
/// occurrence or the end, `before_first` is exactly the prefix up to `i`.
proof fn lemma_before_first_is_prefix(s: Seq<char>, c: char, i: int)
    requires
        0 <= i <= s.len(),
        forall|k: int| 0 <= k < i ==> s[k] != c,
        i < s.len() ==> s[i] == c,
    ensures
        before_first(s, c) == s.subrange(0, i),
    decreases i,
{
    if i == 0 {
        if s.len() == 0 {
            assert(before_first(s, c) =~= s.subrange(0, 0));
        } else {
            assert(s[0] == c);
            assert(before_first(s, c) =~= s.subrange(0, 0));
        }
    } else {
        assert(s[0] != c);
        let rest = s.drop_first();
        assert(forall|k: int| 0 <= k < i - 1 ==> rest[k] == s[k + 1] && rest[k] != c);
        assert(i - 1 < rest.len() ==> rest[i - 1] == c);
        lemma_before_first_is_prefix(rest, c, i - 1);
        assert(seq![s[0]] + rest.subrange(0, i - 1) =~= s.subrange(0, i));
    }
}

/// When no occurrence of `c` lies at or after position `i` and `i` is either
/// just past an occurrence or the start, `after_last` is exactly the suffix
/// from `i` on.
proof fn lemma_after_last_is_suffix(s: Seq<char>, c: char, i: int)
    requires
        0 <= i <= s.len(),
        forall|k: int| i <= k < s.len() ==> s[k] != c,
        i > 0 ==> s[i - 1] == c,
    ensures
        after_last(s, c) == s.subrange(i, s.len() as int),
    decreases s.len(),
{
    if i == s.len() {
        if s.len() == 0 {
            assert(after_last(s, c) =~= s.subrange(i, s.len() as int));
        } else {
            assert(s[s.len() - 1] == c);
            assert(after_last(s, c) =~= s.subrange(i, s.len() as int));
        }
    } else {
        assert(s[s.len() - 1] != c);
        let head = s.drop_last();
        assert(forall|k: int| i <= k < head.len() ==> head[k] == s[k] && head[k] != c);
        assert(i > 0 ==> head[i - 1] == s[i - 1]);
        lemma_after_last_is_suffix(head, c, i);
        assert(head.subrange(i, head.len() as int).push(s[s.len() - 1]) =~= s.subrange(
            i,
            s.len() as int,
        ));
    }
}

/// Whether two string slices hold the same characters.
pub fn str_eq(a: &str, b: &str) -> (r: bool)
    ensures
        r == (a@ == b@),
{
    let alen = a.unicode_len();
    let blen = b.unicode_len();
    if alen != blen {
        return false;
    }
    for i in 0..alen
        invariant
            alen == a@.len(),
            alen == b@.len(),
            forall|k: int| 0 <= k < i ==> a@[k] == b@[k],
    {
        if a.get_char(i) != b.get_char(i) {
            return false;
        }
    }
    proof {
        assert(a@ =~= b@);
    }
    true
}

/// The slice of `s` strictly before the first occurrence of `c`.
pub fn before_first_char<'a>(s: &'a str, c: char) -> (r: &'a str)
    ensures
        r@ == before_first(s@, c),
{
    let n = s.unicode_len();
    let mut i: usize = 0;
    while i < n
        invariant
            i <= n,
            n == s@.len(),
            forall|k: int| 0 <= k < i ==> s@[k] != c,
        decreases n - i,
    {
        if s.get_char(i) == c {
            proof {
                lemma_before_first_is_prefix(s@, c, i as int);
            }
            return s.substring_char(0, i);
        }
        i = i + 1;
    }
    proof {
        lemma_before_first_is_prefix(s@, c, n as int);
    }
    s.substring_char(0, n)
}

/// The slice of `s` strictly after the last occurrence of `c`.
pub fn after_last_char<'a>(s: &'a str, c: char) -> (r: &'a str)
    ensures
        r@ == after_last(s@, c),
{
    let n = s.unicode_len();
    let mut i: usize = n;
    while i > 0
        invariant
            i <= n,
            n == s@.len(),
            forall|k: int| i <= k < n ==> s@[k] != c,
        decreases i,
    {
        if s.get_char(i - 1) == c {
            proof {
                lemma_after_last_is_suffix(s@, c, i as int);
            }
            return s.substring_char(i, n);
        }
        i = i - 1;
    }
    proof {
        lemma_after_last_is_suffix(s@, c, 0);
    }
    s.substring_char(0, n)
}

} // verus!

//! Detection of the interactive terminal emulator hosting the current
//! process: an environment-variable fast path, then a bounded walk up the
//! live process ancestry to the login shell and its host, and a
//! display-name normalization of the raw executable name.

pub mod detect;
pub mod present;
pub mod shortcuts;
pub mod snapshot;
pub mod text;
pub mod walker;

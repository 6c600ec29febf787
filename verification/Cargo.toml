[package]
name = "oxidefetch"
version = "0.1.0"
edition = "2021"
publish = false

[dependencies]
sysinfo = "=0.29.11"
chrono = "=0.4.45"
colored = "=2.2.0"
byte-unit = "=4.0.19"
compound_duration = "=1.2.1"
whoami = "=1.4.1"

[package]
name = "nganjo"
version = "0.1.0"
edition = "2021"
publish = false

[dependencies]
anyhow = "1"
bytesize = "1"
chrono = "0.4"
crossterm = "0.27"
dirs = "5"
ratatui = "0.26"
sysinfo = "0.29"
which = "6"

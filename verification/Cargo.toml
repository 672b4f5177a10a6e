[package]
name = "retroshield"
version = "0.1.0"
edition = "2021"
publish = false

[dependencies]
rz80 = "*"
libc = "0.2"
crossterm = "0.28"
ratatui = "0.28"
sysinfo = "0.32"

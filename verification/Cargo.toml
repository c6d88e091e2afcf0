[package]
name = "pty"
version = "0.1.0"
edition = "2021"
publish = false

[dependencies]
libc = "*"
termios = "*"
chan = "*"
chan-signal = "*"

[package]
name = "editor"
version = "0.1.0"
edition = "2021"
publish = false

[dependencies]
anyhow = "1"
crossbeam-channel = "0.5"
env_logger = "*"
handy = "*"
log = "0.4"
ropey = { version = "1.6", default-features = false }
shlex = "1"
signal-hook = "*"
termion = "*"
textmode = "*"
thiserror = "1"

[package]
name = "bcachefs_core"
version = "0.1.0"
edition = "2021"
publish = false

[dependencies]
anyhow = "=1.0.104"
atty = "=0.2.14"
byteorder = "=1.5.0"
clap = { version = "=4.6.7", features = ["derive"] }
colored = "=2.2.0"
errno = "=0.2.8"
gag = "=1.0.0"
itertools = "=0.10.5"
libc = "=0.2.191"
log = "=0.4.34"
rpassword = "=5.0.1"
uuid = "=1.29.0"

[package]
name = "fmmap"
version = "0.6.0"
edition = "2021"
publish = false

[dependencies]
memmapix = "*"
fs4 = "*"
rustix = { version = "*", features = ["fs"] }
bytes = "1"

[package]
name = "audio"
version = "0.1.0"
edition = "2021"
publish = false

[dependencies]
libpulse-binding = "2"
thiserror = "1"
mimalloc = "0.1"
minifb = "0.25"
rustfft = "6"

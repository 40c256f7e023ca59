[package]
name = "bass-rs"
version = "0.1.0"
edition = "2021"
publish = false

[dependencies]
libloading = "0.8"
thiserror = "2"
windows-sys = { version = "0.59", features = ["Win32_Globalization"] }

[package]
name = "open_verify"
version = "0.1.0"
edition = "2021"
publish = false

[dependencies]
windows-sys = { version = "*", features = ["Win32_Foundation", "Win32_Storage_FileSystem"] }

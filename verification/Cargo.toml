[package]
name = "pe_image"
version = "0.1.0"
edition = "2021"
publish = false

[dependencies]
object = { version = "*", default-features = false, features = ["read_core", "pe", "unaligned"] }
windows-sys = { version = "*", features = ["Win32_System_SystemServices"] }

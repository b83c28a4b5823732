[package]
name = "system76-firmware-daemon"
version = "0.1.0"
edition = "2021"
publish = false

[dependencies]
buildchain = "*"
dbus = "0.6"
libc = "0.2"
plain = "0.2"
rust-lzma = "*"
serde = { version = "1", features = ["derive"] }
serde_json = "1"
sha2 = "0.10"
tar = "0.4"
tempdir = "0.3"
uuid = "*"

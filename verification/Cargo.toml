[package]
name = "http_imager"
version = "0.1.0"
edition = "2021"
publish = false

[dependencies]
configparser = "3"
sysinfo = "*"
ureq = "3"
zip = { version = "*", default-features = false, features = ["deflate"] }
native-windows-gui = "1"
native-windows-derive = "1"

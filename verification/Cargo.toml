[package]
name = "rumbex_smb_native"
version = "0.1.0"
edition = "2021"
publish = false

[dependencies]
smb = { version = "=0.11.2", default-features = false, features = ["multi_threaded", "sign", "encrypt", "compress"] }
rustler = "=0.36.2"

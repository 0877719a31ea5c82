[package]
name = "gpui_qrcode"
version = "0.1.0"
edition = "2021"
publish = false

[dependencies]
qrcode = { version = "*", default-features = false }
thiserror = "*"

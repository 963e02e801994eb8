[package]
name = "sysbanner"
version = "0.1.0"
edition = "2021"
publish = false

[dependencies]
colored = "*"
gethostname = "*"
os_info = { version = "*", default-features = false }
unicode-width = "*"
users = "*"

[package]
name = "wsl_dashboard"
version = "0.1.0"
edition = "2021"
publish = false

[dependencies]
chrono = { version = "0.4", default-features = false, features = ["alloc", "std", "clock"] }
rust-ini = "0.21"
image = { version = "0.25", default-features = false, features = ["png", "jpeg", "gif", "bmp", "ico", "webp"] }
serde = { version = "1", features = ["derive"] }
serde_json = "1"
ureq = "2"
dirs = "5"
get_if_addrs = "0.5"

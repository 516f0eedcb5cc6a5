[package]
name = "encore"
version = "0.1.0"
edition = "2021"
publish = false

[dependencies]
basic-toml = "=0.1.10"
getch-rs = "=0.2.0"
lazy_static = "=1.5.1"
serde = { version = "=1.0.229", features = ["derive"] }
souvlaki = { version = "=0.9.3", default-features = false, features = ["use_zbus"] }

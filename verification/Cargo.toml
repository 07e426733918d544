[package]
name = "earlygirl"
version = "0.1.0"
edition = "2021"
publish = false

[dependencies]
iced = { version = "=0.13.1", default-features = false, features = ["tiny-skia", "tokio"] }
notify-rust = "=4.18.2"
preferences = "2.0.0"
serde = { version = "=1.0.229", features = ["derive"] }

[package]
name = "haushalt_frontend"
version = "0.1.0"
edition = "2021"
publish = false

[dependencies]
chrono = { version = "=0.4.45", default-features = false, features = ["std", "clock"] }
uuid = { version = "=1.29.0", features = ["v4"] }
pulldown-cmark = "*"

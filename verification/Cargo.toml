[package]
name = "ui_forge"
version = "0.1.0"
edition = "2021"
publish = false

[dependencies]
sha2 = "*"
hex = "*"
uuid = { version = "*", features = ["v4"] }
chrono = "*"
serde = { version = "*", features = ["derive"] }
serde_json = "*"
futures = "*"
actix-web = "*"
actix-cors = "*"
reqwest = { version = "*", default-features = false, features = ["json", "rustls-tls"] }
mongodb = "*"
tera = { version = "*", default-features = false }

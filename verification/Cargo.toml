[package]
name = "actix_web_flash"
version = "0.2.0"
edition = "2021"
publish = false

[dependencies]
serde = "1"
serde_json = "1"
actix-web = { version = "4", default-features = false, features = ["cookies"] }
futures = "0.3"

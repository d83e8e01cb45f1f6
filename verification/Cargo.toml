[package]
name = "snake"
version = "0.1.0"
edition = "2021"
publish = false

[dependencies]
actix-cors = "0.6"
actix-web = { version = "4", default-features = false, features = ["macros"] }
http = "0.2"
rand = "0.8"
serde = { version = "1", features = ["derive"] }

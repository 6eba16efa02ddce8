[package]
name = "moped"
version = "0.1.0"
edition = "2021"
publish = false

[dependencies]
uuid = "0.8"
async-mpd = "*"
async-std = { version = "1", features = ["attributes"] }
tide = "0.16"
surf = { version = "2", default-features = false, features = ["h1-client-rustls", "middleware-logger", "encoding"] }
serde = { version = "1", features = ["derive"] }
log = "0.4"
femme = "2"

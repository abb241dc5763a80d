[package]
name = "twirp"
version = "0.1.0"
edition = "2021"
publish = false

[dependencies]
axum = "*"
http = "*"
http-body-util = "*"
serde = { version = "*", features = ["derive"] }
serde_json = "*"
prost = "*"
prost-build = "*"

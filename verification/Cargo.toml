[package]
name = "blobo_party"
version = "0.1.0"
edition = "2021"
publish = false

[dependencies]
rand = "0.8"
disqualified = "1"
serde = { version = "1", features = ["derive"] }
strum = { version = "0.26", features = ["derive"] }
tiny_bail = "*"

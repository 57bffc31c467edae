[package]
name = "snowman"
version = "0.1.0"
edition = "2021"
publish = false

[dependencies]
serde_json = "*"
clap = { version = "*", features = ["derive"] }
dialoguer = { version = "*", features = ["fuzzy-select"] }
home = "*"
reqwest = { version = "*", default-features = false, features = ["blocking", "rustls-tls"] }

[package]
name = "octovpn_core"
version = "0.1.0"
edition = "2021"
publish = false

[dependencies]
sha256 = "*"
reqwest = { version = "*", default-features = false, features = ["blocking"] }
serde = { version = "*", features = ["derive"] }
serde_json = "*"
home = "*"

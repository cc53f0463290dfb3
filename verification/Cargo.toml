[package]
name = "block_header"
version = "0.1.0"
edition = "2021"
publish = false

[dependencies]
fuel-crypto = { version = "*", default-features = false }
fuel-merkle = { version = "*" }
fuel-types = { version = "*", features = ["serde"] }
serde = { version = "1", features = ["derive"] }
tai64 = { version = "4", features = ["serde"] }

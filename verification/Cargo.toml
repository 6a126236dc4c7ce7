[package]
name = "manjaliof_backend"
version = "0.1.0"
edition = "2021"
publish = false

[dependencies]
serde = { version = "*", features = ["derive"] }
serde_json = "*"
reqwest = { version = "*", features = ["blocking", "json"], default-features = false }
chrono = "*"

[dev-dependencies]
rand = "*"

[package]
name = "vm_deployer"
version = "0.1.0"
edition = "2021"
publish = false

[dependencies]
chrono = "0.4"
ctrlc = "3"
reqwest = { version = "0.12", default-features = false, features = ["blocking", "json", "rustls-tls"] }
serde = { version = "1", features = ["derive"] }
serde_json = "1"
serde_yaml = "0.9"

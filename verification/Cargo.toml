[package]
name = "id_contact_comm"
version = "0.1.0"
edition = "2021"
publish = false

[dependencies]
josekit = "=0.10.3"
serde = { version = "1", features = ["derive"] }
serde_json = "1"
serde_yaml = "0.8"
rocket = { version = "0.5", features = ["json"] }

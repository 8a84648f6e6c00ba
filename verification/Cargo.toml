[package]
name = "termstage-core"
version = "0.1.0"
edition = "2021"
publish = false

[dependencies]
bytes = "1"
serde = { version = "1", features = ["derive"] }
serde_json = { version = "1", features = ["preserve_order"] }
thiserror = "2"

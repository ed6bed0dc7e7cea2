[package]
name = "launcher_profiles"
version = "0.1.0"
edition = "2021"
publish = false

[dependencies]
derive_more = { version = "0.99", features = ["display"] }
log = "0.4"
rocket = "0.5"
serde = { version = "1", features = ["derive"] }
tokio = { version = "1", features = ["process", "rt-multi-thread"] }

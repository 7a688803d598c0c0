[package]
name = "gh_notifier"
version = "0.1.0"
edition = "2021"
publish = false

[dependencies]
derive_builder = "0.20"
reqwest = { version = "0.12", features = ["json"] }
serde = { version = "1", features = ["derive"] }
serde_json = "1"
tokio = { version = "1", features = ["macros", "rt-multi-thread"] }

[package]
name = "reqtui"
version = "0.1.0"
edition = "2021"
publish = false

[dependencies]
serde_json = "1"
ratatui = "0.29"
crossterm = "0.28"
reqwest = { version = "0.12", default-features = false, features = ["json"] }
tokio = { version = "1", features = ["macros", "rt-multi-thread"] }
anyhow = "1"
derive_setters = "0.1"

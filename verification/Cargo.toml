[package]
name = "llm_chat"
version = "0.1.0"
edition = "2021"
publish = false

[dependencies]
askama = "0.12"
async-trait = "0.1"
axum = "0.7"
dotenvy = "0.15"
reqwest = { version = "0.12", features = ["json"] }
serde = { version = "1", features = ["derive"] }
serde_json = "1"
tokio = { version = "1", features = ["full"] }
tower-http = { version = "0.5", features = ["fs"] }

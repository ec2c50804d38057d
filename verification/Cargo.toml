[package]
name = "js-sandbox"
version = "0.2.0"
edition = "2021"
publish = false

[dependencies]
deno_core = ">=0.170.0, <=0.200.0"
serde = { version = "1", features = ["derive"] }
serde_json = "1"
tokio = { version = "1", features = ["full"] }

[package]
name = "game_contract"
version = "0.1.0"
edition = "2021"
publish = false

[dependencies]
async-graphql = "7.0"
linera-base = "0.12"
serde = { version = "1", features = ["derive"] }
serde_json = "1"

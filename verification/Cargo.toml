[package]
name = "game_master"
version = "0.1.0"
edition = "2021"
publish = false

[dependencies]
serde = { version = "1", features = ["derive"] }
serde_json = "1"
crossbeam-channel = "0.5"
dotenv = "0.15"
tokio = { version = "1", features = ["rt-multi-thread"] }
warp = { version = "0.3", default-features = false }

[package]
name = "game_engine"
version = "0.1.0"
edition = "2021"
publish = false

[dependencies]
quick-xml = "0.37"
sysinfo = "0.32"
tokio = { version = "1", features = ["sync", "rt", "macros"] }
async-trait = "0.1"

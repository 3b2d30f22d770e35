[package]
name = "starbot"
version = "0.1.0"
edition = "2021"
publish = false

[dependencies]
anyhow = "1"
dotenv = "0.15"
env_logger = "0.10"
log = "0.4"
serenity = "0.10"
star-realms-rs = "*"
tokio = { version = "1", features = ["macros", "rt-multi-thread", "time"] }

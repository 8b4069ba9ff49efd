[package]
name = "makepress"
version = "0.1.0"
edition = "2021"
publish = false

[dependencies]
sled = "0.34"
uuid = { version = "1", features = ["v4"] }
bollard = "0.11"
tokio = { version = "1", features = ["full"] }
warp = "0.3"
serde = { version = "1", features = ["derive"] }
log = "0.4"
pretty_env_logger = "0.4"
async-trait = "0.1"

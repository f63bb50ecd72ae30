[package]
name = "rollup_http_server"
version = "0.1.0"
edition = "2021"
publish = false

[dependencies]
hex = "0.4"
serde = { version = "1", features = ["derive"] }
serde_json = "1"
tokio = { version = "1", features = ["sync", "process", "macros", "rt-multi-thread"] }
actix-web = "4"
actix-server = "2"
async-mutex = "1"
env_logger = "0.10"
getopts = "0.2"
log = "0.4"

[package]
name = "cdn_edge"
version = "0.1.0"
edition = "2021"
publish = false

[dependencies]
async-trait = "=0.1.92"
env_logger = "=0.11.11"
http = "=1.5.0"
once_cell = "=1.21.4"
pingora = { version = "=0.6.0", features = ["lb", "cache", "proxy"] }

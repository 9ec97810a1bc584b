[package]
name = "vg_engine"
version = "0.1.0"
edition = "2021"
publish = false

[dependencies]
serde = { version = "*", features = ["derive"] }
serde_json = "*"
serde_yaml = "*"
envy = "*"
structopt = "*"
log = "*"
env_logger = "*"

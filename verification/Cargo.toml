[package]
name = "phala-registry"
version = "0.1.0"
edition = "2021"
publish = false

[dependencies]
anyhow = "1"
clap = { version = "3", features = ["derive"] }
env_logger = "0.9"
parity-scale-codec = { version = "3", features = ["derive"] }
sp-core = "*"
sp-io = "*"
tokio = { version = "1", features = ["macros", "rt-multi-thread"] }

[package]
name = "rocketchat_client_rs"
version = "0.1.0"
edition = "2021"
publish = false

[dependencies]
hostname = "*"
serde_json = "*"
reqwest = { version = "*", default-features = false, features = ["rustls-tls"] }
tokio = { version = "*", features = ["macros", "rt-multi-thread"] }
env_logger = "*"
structopt = "*"

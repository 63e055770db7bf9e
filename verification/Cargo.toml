[package]
name = "races"
version = "0.1.0"
edition = "2021"
publish = false

[dependencies]
anyhow = "1"
chrono = { version = "0.4", features = ["serde"] }
confy = { version = "0.5", default-features = false, features = ["yaml_conf"] }
env_logger = "0.10"
log = "0.4"
reqwest = { version = "0.11", default-features = false, features = ["json"] }
rocket = { version = "0.5", features = ["json"] }
serde = { version = "1", features = ["derive"] }
serde_yaml = "0.8"
structopt = "0.3"
thiserror = "1"

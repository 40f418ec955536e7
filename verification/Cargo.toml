[package]
name = "teemiao"
version = "0.1.0"
edition = "2021"
publish = false

[dependencies]
chrono = "*"
gix = "*"
clap = { version = "*", features = ["derive"] }
clap-verbosity-flag = "*"
env_logger = "*"
log = "*"
thiserror = "*"

[dev-dependencies]
serde_json = { version = "*", features = ["preserve_order"] }

[package]
name = "river"
version = "0.1.0"
edition = "2021"
publish = false

[dependencies]
libc = "*"
clap = { version = "*", features = ["derive"] }
clap-verbosity-flag = "*"
env_logger = "*"
log = "*"
serde_json = "*"

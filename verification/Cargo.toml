[package]
name = "initialize_ssh"
version = "0.1.0"
edition = "2021"
publish = false

[dependencies]
serde_yaml = "*"
clap = { version = "*", features = ["derive"] }
env_logger = "*"
log = "*"
home = "*"
rpassword = "*"

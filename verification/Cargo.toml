[package]
name = "aws_ip_provisioner"
version = "0.1.0"
edition = "2021"
publish = false

[dependencies]
random-manager = "=0.0.5"
clap = "4"
env_logger = "*"
log = "0.4"
tokio = { version = "1", features = ["macros", "rt-multi-thread", "time"] }

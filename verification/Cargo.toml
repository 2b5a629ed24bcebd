[package]
name = "virtualization"
version = "0.1.0"
edition = "2021"
publish = false

[dependencies]
anyhow = "1"
log = "0.4"
structopt = "0.3"
env_logger = "0.9"
android_logger = "0.10"

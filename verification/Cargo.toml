[package]
name = "v2x"
version = "0.1.0"
edition = "2021"
publish = false

[dependencies]
c-its-parser = { version = "=2.4.2", default-features = false, features = ["cam", "std"] }
rasn = "=0.28.15"
anyhow = "=1.0.104"
clap = { version = "=4.6.7", features = ["derive"] }
ctrlc = "=3.5.2"
env_logger = "=0.11.11"
log = "=0.4.35"
traci-rs = "=0.2.0"

[package]
name = "mpinger"
version = "0.1.0"
edition = "2021"
publish = false

[dependencies]
anyhow = "=1.0.104"
clap = { version = "=4.6.7", features = ["derive"] }
ctrlc = "=3.5.2"
env_logger = "=0.11.11"
log = "=0.4.34"
rand = "=0.9.5"
socket2 = { version = "=0.5.10", features = ["all"] }
time = { version = "=0.3.55", features = ["formatting", "parsing"] }
tokio = { version = "=1.54.1", features = ["net", "rt-multi-thread"] }
tprint = "=1.0.1"

[package]
name = "crazyflie_agent_cli"
version = "0.1.0"
edition = "2021"
publish = false

[dependencies]
anyhow = "1"
cfloader = "*"
clap = { version = "4", features = ["derive"] }
crazyflie-lib = "*"
crazyflie-link = "*"
dirs = "*"
futures = "0.3"
hex = "0.4"
serde = { version = "1", features = ["derive"] }
serde_json = "1"
tokio = { version = "1", features = ["full"] }

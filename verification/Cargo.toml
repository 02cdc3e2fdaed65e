[package]
name = "pantryman_linux"
version = "0.1.0"
edition = "2021"
publish = false

[dependencies]
dirs = "6"
env_logger = "0.11"
libadwaita = { version = "0.7", features = ["v1_4"] }
log = "0.4"
relm4 = { version = "0.9", features = ["libadwaita"] }
serde = { version = "1", features = ["derive"] }
toml = "0.8"

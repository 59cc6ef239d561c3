[package]
name = "gpio2key"
version = "0.1.0"
edition = "2021"
publish = false

[dependencies]
anyhow = "1"
argh = "*"
ctrlc = "3"
env_logger = "*"
evdev = "0.13"
libc = "0.2"
log = "0.4"
serde = { version = "1", features = ["derive"] }
toml = "*"

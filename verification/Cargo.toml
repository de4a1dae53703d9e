[package]
name = "swmon"
version = "0.1.0"
edition = "2021"
publish = false

[dependencies]
anyhow = "=1.0.104"
clap = { version = "=4.5.61", features = ["derive"] }
ddc-hi = "=0.4.1"
env_logger = { version = "=0.10.2", default-features = false }
log = "=0.4.34"
oneshot = "=0.1.13"
strum = { version = "=0.26.3", features = ["derive"] }
tabled = "=0.10.0"

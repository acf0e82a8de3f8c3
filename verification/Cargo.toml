[package]
name = "winmove"
version = "0.1.0"
edition = "2021"
publish = false

[dependencies]
anyhow = "=1.0.104"
env_logger = "=0.9.3"
log = "=0.4.34"
structopt = "=0.3.26"
xcb = { version = "=0.9.0", features = ["randr"] }

[package]
name = "cosmic-reader"
version = "0.1.0"
edition = "2021"
publish = false

[dependencies]
env_logger = "=0.11.11"
fork = "=0.11.0"
log = "=0.4.35"
mupdf = { version = "=0.8.0", default-features = false }
rayon = "=1.12.0"
tokio = { version = "=1.54.1", features = ["rt", "sync"] }
url = "=2.5.8"

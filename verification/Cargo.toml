[package]
name = "upnp_cast"
version = "0.1.0"
edition = "2021"
publish = false

[dependencies]
regex = "=1.13.1"
hex = "=0.4.3"
anyhow = "=1.0.104"
reqwest = { version = "=0.13.5", default-features = false }
socket2 = "=0.6.5"
tokio = { version = "=1.54.1", features = ["rt", "time"] }

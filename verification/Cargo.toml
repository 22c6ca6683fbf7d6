[package]
name = "easyvpn"
version = "0.1.0"
edition = "2021"
publish = false

[dependencies]
hostname = "0.4"
lazy_static = "1"
libc = "0.2"
log = "0.4"
machine-uid = "0.5"
once_cell = "1"
rand = "0.8"
reqwest = { version = "0.12", features = ["json"] }
rocket = { version = "0.5", features = ["json"] }
rocket_cors = "0.6"
serde = { version = "1", features = ["derive"] }
serde_json = "1"
tokio = { version = "1", features = ["full"] }

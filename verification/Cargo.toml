[package]
name = "footager"
version = "0.1.0"
edition = "2021"
publish = false

[dependencies]
axum = { version = "0.7", features = ["macros"] }
dotenv = "0.15"
eyre = "0.6"
fantoccini = "0.21"
http = "1"
hyper = { version = "1", features = ["full"] }
hyper-util = { version = "0.1", features = ["full"] }
lazy_static = "1.4"
log = "0.4"
pin-project = "1"
rand = "0.8"
reqwest = "0.12"
serde = { version = "1", features = ["derive"] }
serde_json = "1"
sysinfo = "0.30"
tokio = { version = "1", features = ["full"] }
tokio-util = "0.7"
tower = { version = "0.4", features = ["util"] }

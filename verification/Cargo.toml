[package]
name = "qlog"
version = "0.1.0"
edition = "2021"
publish = false

[dependencies]
chrono = "0.4"
rand = { version = "0.8", features = ["small_rng"] }
serde = { version = "1", features = ["derive"] }
serde_json = "1"
serde-xml-rs = "0.6"
log = "0.4"
anyhow = "1"
thiserror = "1"
strum = { version = "0.26", features = ["derive"] }
arrayvec = { version = "0.7", features = ["serde"] }
lazy_static = "1"
poll-promise = { version = "0.3", features = ["tokio"] }
geo = "0.28"
geoutils = "0.5"
image = { version = "0.24", default-features = false, features = ["png"] }
egui = "0.27"
egui_extras = "0.27"
egui_dock = { version = "0.12", features = ["serde"] }
tokio = { version = "1", features = ["rt-multi-thread", "time", "sync", "macros"] }
env_logger = "0.11"

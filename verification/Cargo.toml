[package]
name = "fdk"
version = "0.2.0"
edition = "2021"
publish = false

[dependencies]
clap = "2"
hyper = { version = "0.14", features = ["full"] }
lazy_static = "1"
object-pool = "0.5"
serde = { version = "1", features = ["derive"] }
serde_json = "1"
serde_plain = "1"
serde_urlencoded = "0.7"
serde-xml-rs = "0.5"
serde_yaml = "0.8"
thiserror = "1"
tokio = { version = "1", features = ["full"] }
url = "2"

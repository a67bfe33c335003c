[package]
name = "creo_bench"
version = "0.1.0"
edition = "2021"
publish = false

[dependencies]
serde = { version = "=1.0.229", features = ["derive"] }
serde_json = "=1.0.154"
thiserror = "=2.0.21"
tokio = { version = "=1.54.1", features = ["full"] }
tokio-util = { version = "=0.7.20", features = ["codec"] }
futures-util = { version = "=0.3.34", features = ["sink"] }
bytes = "=1.12.1"
clap = { version = "=4.6.7", features = ["derive"] }
tracing = "=0.1.44"
parking_lot = "=0.12.5"
rand = "=0.9.5"
url = "=2.5.8"
cookie_store = "=0.22.1"
mlua = { version = "=0.12.2", features = ["lua54", "vendored", "serialize", "send"] }
yaml_serde = "*"
csv = "1"

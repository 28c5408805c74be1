[package]
name = "pixi_logic"
version = "0.1.0"
edition = "2021"
publish = false

[dependencies]
clap = { version = "=4.6.7", features = ["derive", "env"] }
console = "=0.16.6"
dialoguer = "=0.12.0"
flate2 = "=1.1.10"
fs-err = "=3.3.2"
futures = "=0.3.34"
indicatif = "=0.18.6"
miette = "=7.6.0"
parking_lot = "=0.12.5"
rattler = { version = "0.48", default-features = false }
rattler_conda_types = "=0.52.1"
rattler_lock = "0.32"
reqwest = { version = "=0.13.5", default-features = false, features = ["json"] }
self-replace = "=1.5.1"
serde = { version = "=1.0.229", features = ["derive"] }
tempfile = "=3.27.0"
thiserror = "2"
tokio = { version = "=1.54.1", features = ["rt", "macros"] }
toml-span = "=0.7.2"
tracing = "*"
url = "=2.5.8"

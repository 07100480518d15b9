[package]
name = "tabularuq"
version = "0.1.0"
edition = "2021"
publish = false

[dependencies]
calamine = { version = "=0.37.0", features = ["dates"] }
chrono = "=0.4.45"
csv = "=1.4.0"
futures = "=0.3.34"
serde = { version = "=1.0.229", features = ["derive"] }
tiberius = { version = "=0.12.3", default-features = false, features = ["tds73", "chrono"] }
tokio = { version = "=1.54.1", features = ["net", "rt"] }
tokio-util = { version = "=0.7.20", features = ["compat"] }
toml = "=0.8.23"

[package]
name = "mlflow_rs"
version = "0.1.0"
edition = "2021"
publish = false

[dependencies]
serde = { version = "=1.0.229", features = ["derive"] }
serde_json = "=1.0.151"
reqwest = { version = "=0.13.5", default-features = false, features = ["blocking", "query"] }
ctrlc = "=3.5.2"
log = "=0.4.34"
chrono = { version = "=0.4.45", default-features = false, features = ["clock"] }
bincode = "=1.3.3"
thiserror = "=2.0.21"

[package]
name = "yahoo_finance_api"
version = "0.1.0"
edition = "2021"
publish = false

[dependencies]
http = "=1.5.0"
log = "=0.4.34"
regex = "=1.13.1"
serde = { version = "=1.0.229", features = ["derive"] }
serde_json = "=1.0.154"
thiserror = "=2.0.21"
time = "=0.3.55"
tokio = { version = "=1.54.1", features = ["sync", "time"] }
wreq = "=0.15.3"
wreq-util = { version = "=0.1.0", features = ["emulation-rand"] }

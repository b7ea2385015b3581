[package]
name = "kube_informer"
version = "0.1.0"
edition = "2021"
publish = false

[dependencies]
Inflector = "=0.11.4"
darling = "=0.20.11"
futures = "=0.3.34"
log = "0.4"
proc-macro2 = "=1.0.107"
quote = "=1.0.47"
serde = "=1.0.229"
serde_json = "=1.0.154"
syn = "=2.0.119"
tokio = { version = "=1.54.1", features = ["time"] }

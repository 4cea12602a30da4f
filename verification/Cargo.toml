[package]
name = "ctrlb_backend"
version = "0.1.0"
edition = "2021"
publish = false

[dependencies]
reqwest = { version = "=0.13.5", default-features = false, features = ["stream"] }
serde_json = "=1.0.154"
futures-util = "=0.3.34"
wasm-bindgen = "=0.2.129"
wasm-bindgen-futures = "=0.4.79"

[dev-dependencies]
http = "=1.5.0"
tokio = { version = "=1.54.1", features = ["rt", "net", "time", "io-util"] }

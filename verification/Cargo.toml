[package]
name = "opendal_mbt"
version = "0.1.0"
edition = "2021"
publish = false

[dependencies]
opendal = { version = "=0.59.5", features = ["blocking", "services-s3"] }
futures-util = "=0.3.34"
tokio = { version = "=1.54.1", features = ["rt", "rt-multi-thread"] }
gloo-timers = { version = "=0.4.0", features = ["futures"] }
wasm-bindgen-futures = "=0.4.80"
thiserror = "=2.0.21"

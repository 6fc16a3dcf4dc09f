[package]
name = "knn_service"
version = "0.1.0"
edition = "2021"
publish = false

[dependencies]
dipstick = "=0.9.4"
log = "=0.4.34"
metrics-runtime = { version = "=0.13.1", default-features = false }
tonic = { version = "=0.12.3", default-features = false, features = ["codegen"] }

[dev-dependencies]
quanta = "=0.3.2"

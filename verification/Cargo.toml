[package]
name = "edfi"
version = "0.1.0"
edition = "2021"
publish = false

[dependencies]
rand = "=0.9.5"
miden-objects = "=0.11.5"
miden-lib = "=0.11.5"
miden-assembly = "=0.17.2"
miden-client = { version = "=0.11.11", features = ["tonic", "sqlite"] }
serde = { version = "=1.0.229", features = ["derive"] }
serde_json = "=1.0.154"
tokio = { version = "=1.54.1", features = ["rt-multi-thread", "macros"] }

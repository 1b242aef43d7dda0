[package]
name = "runtimes"
version = "0.1.0"
edition = "2021"
publish = false

[dependencies]
anyhow = "=1.0.104"
futures = "=0.3.34"
log = "=0.4.34"
runtimelib = { version = "=3.0.0", default-features = false, features = ["async-dispatcher-runtime", "ring"] }
serde_json = "=1.0.154"
smol = "=2.0.2"
uuid = { version = "=1.29.0", features = ["v4"] }

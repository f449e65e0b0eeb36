[package]
name = "wtga"
version = "0.1.0"
edition = "2021"
publish = false

[dependencies]
regex = "=1.13.1"
encoding_rs = "=0.8.44"
uuid = { version = "=1.29.0", features = ["v4"] }
serde = { version = "=1.0.229", features = ["derive"] }
serde_json = "=1.0.154"
rand = "=0.8.8"
chrono = "=0.4.45"
sysinfo = "0.30"
num_cpus = "1"

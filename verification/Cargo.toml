[package]
name = "measurement_service"
version = "0.1.0"
edition = "2021"
publish = false

[dependencies]
anyhow = "1"
futures-util = "0.3"
http = "=1.5.0"
jsonrpsee = { version = "=0.24.11", features = ["server"] }
serde = { version = "1", features = ["derive"] }
sysinfo = "=0.29.11"
tokio = { version = "=1.54.1", features = ["macros", "net", "rt", "rt-multi-thread", "sync", "time"] }
tower = { version = "0.4", features = ["util"] }
tracing = "0.1"

[package]
name = "host_telemetry"
version = "0.1.0"
edition = "2021"
publish = false

[dependencies]
sysinfo = "0.29"
heim = { version = "0.1.0-rc.1", features = ["cpu", "memory", "process"] }
futures = "0.3"
serde = { version = "1", features = ["derive"] }
rocket = { version = "0.5", features = ["json"] }

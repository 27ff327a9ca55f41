[package]
name = "flowtrace"
version = "0.1.0"
edition = "2021"
publish = false

[dependencies]
active-win-pos-rs = "0.8"
chrono = { version = "=0.4.45", features = ["serde"] }
image = { version = "=0.24.9", default-features = false, features = ["png"] }
once_cell = "=1.21.4"
rdev = "=0.5.3"
serde = { version = "=1.0.229", features = ["derive"] }
serde_json = "=1.0.154"
uuid = { version = "=1.29.0", features = ["v4"] }

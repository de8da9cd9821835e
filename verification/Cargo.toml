[package]
name = "win_ipc"
version = "0.1.0"
edition = "2021"
publish = false

[dependencies]
affinity = "*"
eyre = "*"
iceoryx2 = "*"
metrics = "*"
tokio = { version = "1", features = ["rt", "sync", "time"] }
tokio-util = "*"
tracing = "*"
wincode = { version = "*", features = ["derive"] }

[package]
name = "jack2"
version = "0.1.0"
edition = "2021"
publish = false

[dependencies]
arrayvec = "0.7"
atb = "*"
futures-channel = "*"
futures-core = "*"
futures-util = "*"
libloading = "*"
log = "*"
once_cell = "*"
thiserror = "*"
tokio = { version = "1", features = ["rt", "time"] }
tokio-stream = "*"

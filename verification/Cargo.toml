[package]
name = "system_benchmark"
version = "0.1.0"
edition = "2021"
publish = false

[dependencies]
battery = "*"
clap = "*"
ndarray = "*"
rand = "*"
reqwest = "*"
serde_json = "*"
sysinfo = "*"
tch = "*"
tokio = { version = "*", features = ["rt", "time"] }

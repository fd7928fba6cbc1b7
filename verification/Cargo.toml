[package]
name = "airpods_proximity"
version = "0.1.0"
edition = "2021"
publish = false

[dependencies]
btleplug = "*"
futures = "*"
notify-rust = "*"
tokio = { version = "*", features = ["rt", "macros", "sync"] }
tokio-stream = "*"

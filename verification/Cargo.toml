[package]
name = "rootrobot"
version = "0.1.0"
edition = "2021"
publish = false

[dependencies]
btleplug = "*"
crc = "2.1"
futures = "0.3"
tokio = { version = "1", features = ["macros", "rt-multi-thread", "time"] }
uuid = "1"

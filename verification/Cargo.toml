[package]
name = "selkies_gamepad"
version = "0.1.0"
edition = "2021"
publish = false

[dependencies]
tokio = { version = "1", features = ["rt-multi-thread", "macros", "net", "sync", "io-util", "time"] }

[dev-dependencies]
input-event-codes = "*"

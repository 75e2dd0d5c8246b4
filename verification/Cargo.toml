[package]
name = "nurtex"
version = "0.1.0"
edition = "2021"
publish = false

[dependencies]
flate2 = "1"
uuid = "1"
tokio = { version = "1", features = ["net", "io-util", "rt", "rt-multi-thread", "macros", "time", "sync"] }
hashbrown = "*"

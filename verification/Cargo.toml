[package]
name = "gateway"
version = "0.1.0"
edition = "2021"
publish = false

[dependencies]
dotenv = "0.15"
juniper = { version = "0.15", default-features = false }
juniper_warp = "0.7"
tokio = { version = "1", features = ["macros", "rt-multi-thread", "sync", "time"] }
tonic = "0.6"
tracing = "0.1"
tracing-subscriber = "0.3"
warp = "0.3"

[package]
name = "webhere"
version = "0.1.0"
edition = "2021"
publish = false

[dependencies]
pathdiff = "=0.2.3"
clap = "=4.6.7"
notify = "=8.2.0"
futures = "=0.3.34"
tokio = { version = "=1.53.2", features = ["rt-multi-thread", "sync", "macros"] }
warp = { version = "=0.4.3", features = ["server", "websocket"] }

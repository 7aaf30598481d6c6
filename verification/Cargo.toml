[package]
name = "servelite"
version = "0.1.0"
edition = "2021"
publish = false

[dependencies]
tokio = { version = "1", features = ["full"] }
warp = "0.3"
notify = "6"
futures-util = "0.3"

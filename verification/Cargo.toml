[package]
name = "tun_bench"
version = "0.1.0"
edition = "2021"
publish = false

[dependencies]
bytes = "1"
clap = { version = "4", features = ["derive"] }
ctrlc2 = "*"
futures = "0.3"
tokio = { version = "1", features = ["full"] }
tun-rs = { version = "2.5.1", features = ["async", "async_framed"] }

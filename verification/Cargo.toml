[package]
name = "copytrader"
version = "0.1.0"
edition = "2021"
publish = false

[dependencies]
base64 = "0.13"
bs58 = "*"
tokio = { version = "*", features = ["rt-multi-thread", "macros", "time", "sync"] }
futures-util = "*"
anyhow = "*"
chrono = "*"
colored = "*"
yellowstone-grpc-client = "*"
yellowstone-grpc-proto = "*"

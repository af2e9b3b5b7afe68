[package]
name = "kraken_rs"
version = "0.1.0"
edition = "2021"
publish = false

[dependencies]
base64 = "*"
chrono = "*"
ring = "*"
reqwest = { version = "*", default-features = false }
tokio = { version = "*", default-features = false, features = ["net"] }
tokio-tungstenite = "*"
tungstenite = "*"
futures-util = { version = "*", features = ["sink"] }

[package]
name = "proxy_agent"
version = "0.1.0"
edition = "2021"
publish = false

[dependencies]
url = "=2.5.8"
tokio = { version = "=1.53.2", features = ["rt-multi-thread", "net", "io-util", "time", "sync"] }
tokio-util = { version = "=0.7.19", features = ["codec"] }
futures = "=0.3.34"
bytes = "=1.12.1"
httpcodec = "=0.2.3"
bytecodec = "=0.4.15"
rand = "=0.10.3"

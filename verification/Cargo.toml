[package]
name = "httpbridge"
version = "0.1.0"
edition = "2021"
publish = false

[dependencies]
uuid = { version = "=1.27.0", features = ["v4"] }
http = "=1.5.0"
tokio = { version = "=1.53.2", features = ["rt-multi-thread", "sync", "macros", "time"] }
tokio-util = "=0.7.19"
futures-util = "=0.3.34"
bytes = "=1.12.1"
dashmap = "=6.2.1"

[package]
name = "zfsrpc"
version = "0.1.0"
edition = "2021"
publish = false

[dependencies]
async-stream = "*"
indexmap = "*"
libc = "*"
serde = { version = "*", features = ["derive"] }
tokio = { version = "*", features = ["io-util", "macros", "process", "rt", "rt-multi-thread", "sync"] }
tokio-pipe = "*"
tokio-stream = "*"

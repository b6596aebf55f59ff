[package]
name = "ecdysis"
version = "1.1.1"
edition = "2021"
publish = false

[dependencies]
bincode = "1.3"
derive_more = { version = "2", features = ["display", "from"] }
futures = "0.3"
log = "0.4"
nix = { version = "0.28", features = ["fs", "process", "socket", "time", "uio"] }
os_pipe = "1"
serde = { version = "1", features = ["derive"] }
tempfile = "3"
tokio = { version = "1", features = ["fs", "macros", "net", "rt", "rt-multi-thread", "signal", "sync", "time"] }
tokio-seqpacket = "*"
tokio-stream = { version = "0.1", features = ["net", "signal", "sync"] }

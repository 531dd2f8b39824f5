[package]
name = "perf_events"
version = "0.1.0"
edition = "2021"
publish = false

[dependencies]
page_size = "*"
libc = "0.2"
nix = { version = "*", features = ["ioctl", "fs"] }
mio = { version = "*", features = ["os-poll", "os-ext"] }
tokio = { version = "1", features = ["rt", "net", "sync"] }
futures = "*"
crossbeam-channel = "*"
serde = { version = "1", features = ["derive"] }
log = "0.4"

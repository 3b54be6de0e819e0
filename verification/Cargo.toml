[package]
name = "tea"
version = "0.1.0"
edition = "2021"
publish = false

[dependencies]
anyhow = "1"
crossterm = { version = "0.26", features = ["event-stream"] }
futures-util = "0.3"
libc = "0.2"
signal-hook = "0.3"
signal-hook-tokio = { version = "0.3", features = ["futures-v0_3"] }
tokio = { version = "1", features = ["rt-multi-thread", "macros"] }
tui = "0.19"

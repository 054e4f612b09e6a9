[package]
name = "identity_agent"
version = "0.1.0"
edition = "2021"
publish = false

[dependencies]
anyhow = "*"
aya = "*"
bytes = "*"
libc = "*"
tokio = { version = "*", features = ["macros", "rt-multi-thread", "signal", "fs"] }
tracing = "*"
tracing-subscriber = { version = "*", features = ["env-filter"] }

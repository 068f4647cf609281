[package]
name = "shellflip"
version = "2.1.0"
edition = "2021"
publish = false

[dependencies]
anyhow = "=1.0.104"
async-trait = "=0.1.92"
clap = { version = "=4.6.7", features = ["derive"] }
futures = "=0.3.34"
libc = "=0.2.191"
log = "=0.4.35"
memfile = "=0.3.2"
nix = { version = "=0.29.0", features = ["fs"] }
sd-notify = { version = "=0.4.5", features = ["fdstore"] }
serde = { version = "=1.0.229", features = ["derive"] }
serde_json = "=1.0.154"
thiserror = "=1.0.69"
tokio = { version = "=1.54.1", features = ["fs", "io-util", "macros", "net", "rt-multi-thread", "signal", "sync", "time"] }
tokio-stream = { version = "=0.1.19", features = ["net"] }
tokio-util = { version = "=0.7.20", features = ["codec"] }

[package]
name = "cjdnstool"
version = "0.1.0"
edition = "2021"
publish = false

[dependencies]
cjdns = "0.2"
chrono = "0.4"
clap = { version = "4", features = ["derive"] }
eyre = "0.6"
color-eyre = "0.6"
tokio = { version = "1", features = ["rt-multi-thread", "macros", "signal", "time"] }
dotenvy = "0.15"
env_logger = "0.11"
log = "0.4"
strum = { version = "0.27", features = ["derive"] }
const_format = "0.2"

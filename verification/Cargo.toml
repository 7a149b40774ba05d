[package]
name = "taps"
version = "0.1.0"
edition = "2021"
publish = false

[dependencies]
async-trait = "0.1"
bytes = "1"
dns-lookup = "*"
futures = "0.3"
http = "1"
log = "0.4"
snafu = "*"
tokio = { version = "1", features = ["io-util", "net", "rt", "time"] }

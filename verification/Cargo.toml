[package]
name = "rjr_relay"
version = "0.1.0"
edition = "2021"
publish = false

[dependencies]
anyhow = "1"
async-channel = "2"
bracket-color = "0.8"
fern = { version = "0.6", features = ["colored"] }
humantime = "2"
log = "0.4"
md5 = "0.7"
rand = "0.8"
reqwest = { version = "0.12", default-features = false }
serde = { version = "1", features = ["derive"] }
sha256 = { version = "1", default-features = false }
thiserror = "1"
tokio = { version = "1", features = ["rt-multi-thread", "net", "io-util", "sync", "macros", "time"] }
toml = "0.8"
url = "2"
uuid = { version = "1", features = ["v4"] }

[package]
name = "pamcore"
version = "0.1.0"
edition = "2021"
publish = false

[dependencies]
rand = "0.8"
backoff = "*"
native-tls = "*"
url = "*"
log = "*"
fern = "*"
chrono = "*"

[dev-dependencies]
serde_json = "*"

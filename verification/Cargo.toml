[package]
name = "memphis"
version = "0.1.0"
edition = "2021"
publish = false

[dependencies]
async-nats = "=0.33.0"
bytes = "=1.12.1"
futures-util = "=0.3.34"
jsonschema = { version = "=0.17.1", default-features = false }
log = "=0.4.34"
murmur3 = "=0.5.2"
rand = "=0.8.8"
serde_json = "=1.0.151"
tokio = { version = "=1.53.2", features = ["rt-multi-thread", "macros", "time", "sync"] }
tokio-util = "=0.7.19"
uuid = { version = "=1.27.0", features = ["v4"] }

[package]
name = "patchbukkit"
version = "0.1.0"
edition = "2021"
publish = false

[dependencies]
anyhow = "=1.0.104"
futures = "=0.3.34"
glob = "=0.3.4"
j4rs = "=0.25.3"
log = "=0.4.35"
prost = "=0.14.4"
prost-build = "=0.14.4"
serde = { version = "=1.0.229", features = ["derive"] }
serde_json = "=1.0.154"
serde-saphyr = "=2.0.0"
tokio = { version = "=1.54.1", features = ["rt", "sync", "macros"] }
uuid = "=1.29.0"
zip = { version = "*", default-features = false, features = ["deflate"] }

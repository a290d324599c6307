[package]
name = "bflib"
version = "0.1.0"
edition = "2021"
publish = false

[dependencies]
bytes = "1"
fxhash = "0.2"
log = "0.4"
mlua = { version = "0.9", features = ["lua51", "module"] }
serde = "1"
serde_derive = "1"
serde_json = "1"
simplelog = "0.12"
tokio = { version = "1", features = ["rt", "sync", "fs", "io-util"] }

[package]
name = "sentiric_uac"
version = "0.1.0"
edition = "2021"
publish = false

[dependencies]
anyhow = "1"
cpal = "0.15"
rand = "0.8"
ringbuf = "0.3"
tokio = { version = "1", features = ["net", "sync", "rt"] }
tracing = "0.1"

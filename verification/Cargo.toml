[package]
name = "audio_service"
version = "0.1.0"
edition = "2021"
publish = false

[dependencies]
cpal = "0.15"
dasp = "0.11"
futures = "0.3"
lazy_static = "1"
log = "0.4"
magnum-opus = "*"
tokio = { version = "1", features = ["rt", "time", "macros", "sync"] }

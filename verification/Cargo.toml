[package]
name = "push_dispatch"
version = "0.1.0"
edition = "2021"
publish = false

[dependencies]
deadqueue = "=0.2.5"
fcm_v1 = "=0.2.1"
log = "=0.4.34"
tokio = { version = "=1.53.2", features = ["rt", "sync", "time", "macros"] }

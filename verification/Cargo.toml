[package]
name = "test_queue"
version = "0.1.0"
edition = "2021"
publish = false

[dependencies]
ringbuf = "0.4"
tokio = { version = "1", default-features = false, features = ["sync", "rt"] }
log = "0.4"
syn = { version = "1", features = ["full"] }
quote = "1"
proc-macro2 = "1"

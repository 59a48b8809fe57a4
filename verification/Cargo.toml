[package]
name = "jdbc"
version = "0.1.0"
edition = "2021"
publish = false

[dependencies]
jni = { version = "=0.21.1", features = ["invocation"] }
bigdecimal = "=0.4.11"
chrono = { version = "=0.4.45", default-features = false, features = ["clock"] }
log = "=0.4.34"
tokio = { version = "=1.54.1", features = ["rt"] }
async-std = "1"

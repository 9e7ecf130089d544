[package]
name = "mtc_engine"
version = "0.1.0"
edition = "2021"
publish = false

[dependencies]
chrono = "0.4"
jni = "0.19"

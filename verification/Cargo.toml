[package]
name = "tiktoken_bridge"
version = "0.1.0"
edition = "2021"
publish = false

[dependencies]
tiktoken-rs = "=0.12.1"
jni = "=0.22.4"

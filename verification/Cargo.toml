[package]
name = "actix-daemon-utils"
version = "0.1.0"
edition = "2021"
publish = false

[dependencies]
actix = "0.12"
actix-rt = "2"
futures-util = "0.3"

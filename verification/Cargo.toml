[package]
name = "dotsync"
version = "0.1.0"
edition = "2021"
publish = false

[dependencies]
clap = { version = "4", features = ["derive"] }
mlua = { version = "0.10", features = ["lua54", "vendored"] }

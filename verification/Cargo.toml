[package]
name = "arcade"
version = "0.1.0"
edition = "2021"
publish = false

[dependencies]
log = "0.4"
rand = "0.8"
rusty_engine = "=5.2.1"

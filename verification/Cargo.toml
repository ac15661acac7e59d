[package]
name = "yawp"
version = "0.1.0"
edition = "2021"
publish = false

[dependencies]
oauth1-request = "=0.6.1"
reqwest = { version = "=0.13.5", default-features = false, features = ["blocking", "form"] }
clap = "=2.34.0"

[package]
name = "pagerduty_rs"
version = "0.2.0"
edition = "2021"
publish = false

[dependencies]
serde_json = "*"
time = "*"
ureq = { version = "*", default-features = false }
reqwest = { version = "*", default-features = false }

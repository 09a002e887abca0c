[package]
name = "noted"
version = "0.1.0"
edition = "2021"
publish = false

[dependencies]
tinyid = "*"
time = { version = "0.3", features = ["local-offset", "serde", "macros"] }
chrono = "0.4"
crossbeam-channel = "0.5"
serde = { version = "1", features = ["derive"] }
serde_json = "1"
rmp-serde = "1"
unicode-width = "0.1"
aho-corasick = "0.7"
fastrand = "1"
directories = "4"

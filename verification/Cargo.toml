[package]
name = "randomprime"
version = "0.1.0"
edition = "2021"
publish = false

[dependencies]
rand = "0.8"
flate2 = "1"
sha2 = "0.10"
encoding = "0.2"
ssmarshal = "1"
serde = { version = "1", features = ["derive"] }
num-bigint = "0.4"
num-integer = "0.1"
num-traits = "0.2"

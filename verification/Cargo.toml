[package]
name = "chaincore"
version = "0.1.0"
edition = "2021"
publish = false

[dependencies]
rand = "0.8"
merlin = "3"
rand_core = { version = "0.6", features = ["getrandom"] }
schnorrkel = "0.11"

[dev-dependencies]
hex = "0.4"

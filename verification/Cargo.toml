[package]
name = "the_resistance"
version = "0.1.0"
edition = "2021"
publish = false

[dependencies]
soroban-sdk = { version = "*", features = ["testutils"] }
ultrahonk_soroban_verifier = "*"

[package]
name = "r14_examples"
version = "0.1.0"
edition = "2021"
publish = false

[dependencies]
r14-sdk = { version = "=0.1.0", features = ["prove"] }
ark-bls12-381 = "=0.5.0"
ark-ff = "=0.5.0"
ark-std = "=0.5.0"
ark-ec = "=0.5.0"
ark-groth16 = "=0.5.0"
ark-serialize = "=0.5.0"
anyhow = "=1.0.104"
tokio = { version = "=1.54.1", features = ["macros", "rt-multi-thread"] }

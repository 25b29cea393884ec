[package]
name = "consensus_core"
version = "0.1.0"
edition = "2021"
publish = false

[dependencies]
alloy = { version = "=2.5.0", default-features = false }
anyhow = "=1.0.104"
ark-std = "=0.6.0"
async-lock = "=3.4.2"
async-std = "=1.13.2"
async-trait = "=0.1.92"
bitvec = { version = "=1.1.1", features = ["serde"] }
digest = "=0.10.7"
ethers = { version = "=2.0.14", default-features = false }
futures = "=0.3.34"
serde = { version = "=1.0.229", features = ["derive"] }
tracing = "=0.1.44"
typenum = "=1.20.1"

[package]
name = "vanity_search"
version = "0.1.0"
edition = "2021"
publish = false

[dependencies]
chrono = "*"
clap = { version = "*", features = ["derive"] }
num_cpus = "*"
rayon = "*"
serde_json = "*"
solana-sdk = "*"

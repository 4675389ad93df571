[package]
name = "prover"
version = "0.1.0"
edition = "2021"
publish = false

[dependencies]
ansi_term = "=0.12.1"
anyhow = "=1.0.104"
rand = "=0.8.8"
rayon = "=1.12.0"
snarkvm = { version = "=1.6.0", default-features = false, features = ["algorithms", "circuit", "console", "ledger", "parameters", "synthesizer", "utilities", "anyhow", "colored", "rand", "serde_json", "thiserror", "ureq"] }
structopt = "=0.3.26"
tokio = { version = "=1.54.1", features = ["full"] }
tracing = "=0.1.44"
tracing-subscriber = "=0.3.23"

[package]
name = "mining_cli"
version = "0.1.0"
edition = "2021"
publish = false

[dependencies]
anyhow = "1"
chrono = "0.4"
console = "0.15"
dialoguer = "0.11"
ethers = { version = "2.0", default-features = false }
log = "0.4"
rand = "0.8"
rand_chacha = "0.3"
reqwest = { version = "0.11", default-features = false, features = ["json"] }
serde = { version = "1", features = ["derive"] }
tokio = { version = "1", features = ["time", "rt", "macros", "io-std", "io-util"] }

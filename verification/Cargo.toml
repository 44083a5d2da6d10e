[package]
name = "scilla"
version = "0.1.0"
edition = "2021"
publish = false

[dependencies]
anyhow = "*"
bincode = "=1.3.3"
chrono = { version = "*", default-features = false, features = ["std"] }
comfy-table = "*"
console = "*"
indicatif = "*"
inquire = "*"
serde = { version = "*", features = ["derive"] }
solana-commitment-config = { version = "*", features = ["serde"] }
solana-instruction = "*"
solana-keypair = "*"
solana-message = "*"
solana-nonce = { version = "*", features = ["serde"] }
solana-pubkey = "*"
solana-signature = "*"
solana-stake-interface = { version = "*", features = ["bincode"] }
solana-system-interface = { version = "*", features = ["bincode"] }
solana-hash = "*"
solana-transaction = { version = "*", features = ["serde", "wincode"] }
solana-vote-program = { version = ">=4.0.3,<4.3.0", features = ["agave-unstable-api"] }
thiserror = "*"
toml = { version = "*", default-features = false, features = ["parse", "display", "serde"] }

[dev-dependencies]
solana-fee-calculator = { version = "*", features = ["serde"] }

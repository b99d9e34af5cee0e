[package]
name = "chance_registry"
version = "0.1.0"
edition = "2021"
publish = false

[dependencies]
solana-program = "=5.2.0"
solana-sha256-hasher = "=3.1.0"
solana-system-interface = { version = "=3.3.0", features = ["bincode"] }
sha2 = "=0.11.1"

[dev-dependencies]
borsh = "=1.8.1"

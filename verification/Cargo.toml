[package]
name = "xforth"
version = "0.1.0"
edition = "2021"
publish = false

[dependencies]
serde_json = "1"
solana-keypair = "3"
solana-pubkey = "3"
solana-instruction = "3"
solana-transaction = "3"
solana-message = "3"
solana-hash = "4"
solana-signer = "3"
solana-signature = "3"
solana-system-interface = "3"
solana-rpc-client = "3"
solana-commitment-config = "3"
anyhow = "1"
dotenvy = "0.15"

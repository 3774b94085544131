[package]
name = "hara"
version = "0.1.0"
edition = "2021"
publish = false

[dependencies]
alloy = { version = "1", default-features = false, features = ["std", "sol-types", "network", "providers", "rpc-types", "signer-local"] }
clap = { version = "4", features = ["derive"] }
dotenv = "0.15"
eyre = "0.6"
heck = "0.5"
serde = { version = "1", features = ["derive"] }
serde_json = "1"
tiny-keccak = { version = "2", features = ["keccak"] }
tracing = "0.1"
tokio = { version = "1", features = ["macros", "rt-multi-thread"] }

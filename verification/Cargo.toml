[package]
name = "blockchain"
version = "0.1.0"
edition = "2021"
publish = false

[dependencies]
sha2 = "0.10"
hex = "0.4"
secp256k1 = { version = "0.29", features = ["rand-std"] }
serde = { version = "1", features = ["derive"] }
serde_json = "1"
chrono = "0.4"
actix-web = "4"
tokio = { version = "1", features = ["rt-multi-thread"] }
rocksdb = "0.22"

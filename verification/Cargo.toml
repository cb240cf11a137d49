[package]
name = "cardano_blockchain_viewer"
version = "0.1.0"
edition = "2021"
publish = false

[dependencies]
ed25519-dalek = "=2.2.0"
hex = "=0.4.3"
rand = "=0.8.8"
cardano-serialization-lib = "=11.5.0"
bech32 = "=0.7.3"
serde = { version = "=1.0.229", features = ["derive"] }
serde_json = "=1.0.151"
jsonwebtoken = "=9.3.1"
chrono = "=0.4.45"
axum = { version = "=0.7.9", features = ["ws"] }
tokio = { version = "=1.53.2", features = ["macros", "rt-multi-thread", "sync", "net", "io-util", "process", "time"] }
tokio-tungstenite = "=0.21.0"
futures-util = "=0.3.34"
tower-http = { version = "=0.5.2", features = ["cors"] }
reqwest = { version = "=0.12.7", default-features = false, features = ["json"] }
dotenvy = "=0.15.7"

[dev-dependencies]
ciborium = "=0.2.2"

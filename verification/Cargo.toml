[package]
name = "qp_hd"
version = "0.1.0"
edition = "2021"
publish = false

[dependencies]
quantom_value = "=0.1.0"
hex = "=0.4.3"
sha2 = "=0.10.9"
ripemd = "=0.1.3"
tiny-keccak = { version = "=2.0.2", features = ["keccak"] }
bs58 = "=0.5.1"
k256 = "=0.13.4"
ed25519-dalek = "=2.2.0"
serde = { version = "=1.0.229", features = ["derive"] }
serde_json = "=1.0.154"
axum = "=0.8.9"
tokio = { version = "=1.54.1", features = ["macros", "rt-multi-thread", "net"] }
tower-http = { version = "=0.6.11", features = ["cors"] }
chrono = "=0.4.45"
dotenvy = "=0.15.7"
reqwest = { version = "=0.12.28", default-features = false, features = ["json", "rustls-tls"] }

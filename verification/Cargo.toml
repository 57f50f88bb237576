[package]
name = "zk_income"
version = "0.1.0"
edition = "2021"
publish = false

[dependencies]
curve25519-dalek = { version = "4", features = ["digest", "rand_core"] }
bulletproofs = "5"
merlin = "3"
ed25519-dalek = { version = "2", features = ["rand_core"] }
sha2 = "0.10"
rand = "0.8"
hex = "0.4"
serde = { version = "1", features = ["derive"] }
serde_json = "1"
axum = "0.7"
tokio = { version = "1", features = ["full"] }
tower-http = { version = "0.5", features = ["cors"] }
uuid = { version = "1", features = ["v4"] }
chrono = "0.4"
aws-config = "1"
aws-sdk-dynamodb = "1"
wasm-bindgen = "0.2"
serde-wasm-bindgen = "0.6"

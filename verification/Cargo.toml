[package]
name = "eth_proofs"
version = "0.1.0"
edition = "2021"
publish = false

[dependencies]
tokio = { version = "1", features = ["full"] }
bincode = "1.3"
serde = { version = "1", features = ["derive"] }
anyhow = "1"
derive_more = { version = "*", features = ["constructor"] }
tracing = "0.1"
tracing-subscriber = { version = "0.3", features = ["env-filter"] }
tracing-forest = "*"
clap = { version = "4", features = ["derive", "env"] }
dotenvy = "*"
futures = "0.3"
futures-util = "0.3"
itertools = "*"
tokio-util = "0.7"
axum = { version = "*", features = ["ws"] }
tonic = { version = "*", features = ["zstd"] }
tonic-prost = "*"
tonic-web = "*"
prost = "*"
tower = "*"
tower-http = { version = "*", features = ["cors"] }
reqwest = { version = "0.12", default-features = false }
tokio-tungstenite = "*"
tungstenite = "*"

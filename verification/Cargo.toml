[package]
name = "helios-light-client"
version = "0.1.0"
edition = "2021"
publish = false

[dependencies]
axum = { version = "0.7", default-features = false, features = ["http1", "json", "query", "tokio"] }
clap = { version = "4", features = ["derive"] }
color-eyre = "0.6"
futures = "0.3"
http = "1"
reqwest = { version = "0.11", default-features = false }
serde = { version = "1", features = ["derive"] }
tendermint = { version = "0.40", features = ["rust-crypto"] }
tendermint-light-client = "0.40"
tendermint-light-client-detector = "0.40"
tendermint-rpc = { version = "0.40", features = ["http-client"] }
tokio = { version = "1", features = ["macros", "rt-multi-thread", "sync", "time", "net"] }
tower-http = { version = "0.5", features = ["cors"] }
tracing = "0.1"
tracing-subscriber = { version = "0.3", features = ["env-filter"] }

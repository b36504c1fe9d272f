[package]
name = "conduit"
version = "0.1.0"
edition = "2021"
publish = false

[dependencies]
async-stream = "0.3"
axum = { version = "=0.8.9", default-features = false, features = ["http1", "json", "query", "tokio"] }
bytes = "1"
chrono = { version = "=0.4.45", default-features = false, features = ["clock", "std"] }
clap = { version = "4", default-features = false, features = ["derive", "std", "help", "usage", "error-context"] }
futures = { version = "0.3", default-features = false, features = ["std"] }
libp2p = { version = "=0.56.0", default-features = false, features = ["macros", "noise", "tcp", "tokio", "yamux"] }
libp2p-identify = "=0.47.0"
libp2p-identity = { version = "=0.2.14", features = ["ed25519", "peerid", "rand"] }
libp2p-kad = "=0.48.0"
libp2p-noise = "=0.46.1"
libp2p-request-response = { version = "=0.29.0", features = ["json"] }
libp2p-stream = "=0.4.0-alpha"
libp2p-swarm = { version = "=0.47.1", features = ["macros"] }
libp2p-tcp = { version = "=0.44.1", features = ["tokio"] }
libp2p-yamux = "=0.47.0"
reqwest = { version = "=0.13.5", default-features = false, features = ["json", "rustls"] }
serde = { version = "1", features = ["derive"] }
serde_json = "1"
serde_yaml = "0.9"
tokio = { version = "1", features = ["macros", "net", "rt-multi-thread", "sync", "time"] }
tracing = "0.1"
tracing-subscriber = { version = "0.3", default-features = false, features = ["fmt", "std"] }

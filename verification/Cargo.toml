[package]
name = "theseus"
version = "0.1.0"
edition = "2021"
publish = false

[dependencies]
chrono = { version = "0.4", default-features = false, features = ["clock", "std"] }
futures = "0.3"
reqwest = { version = "0.12", default-features = false, features = ["stream", "rustls-tls"] }
serde = { version = "1", features = ["derive"] }
serde_json = "1"
sha2 = "0.10"
sysinfo = { version = "0.33", default-features = false, features = ["system"] }
tokio = { version = "1", features = ["fs", "io-util", "rt", "macros"] }
tracing = "0.1"
zip = { version = "2", default-features = false, features = ["deflate"] }

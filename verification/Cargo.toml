[package]
name = "sumrzr"
version = "0.1.0"
edition = "2021"
publish = false

[dependencies]
serde = { version = "1", features = ["derive"] }
reqwest = { version = "0.12", default-features = false, features = ["blocking", "stream", "rustls-tls"] }
tokio = { version = "1", features = ["fs", "io-util", "rt", "macros"] }
futures-util = "0.3"

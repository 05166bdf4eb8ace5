[package]
name = "safejaq"
version = "0.1.0"
edition = "2021"
publish = false

[dependencies]
jaq-core = "2"
jaq-json = { version = "1", features = ["serde_json"] }
jaq-std = "2"
nix = { version = "0.29", features = ["resource"] }
serde = { version = "1", features = ["derive"] }
serde_json = "1"
tokio = { version = "1", features = ["process", "io-util", "time", "rt", "macros"] }
thiserror = "2"
tracing = "0.1"
opener = "0.7"
chrono = { version = "0.4", features = ["serde"] }
schemars = { version = "0.8", features = ["chrono"] }

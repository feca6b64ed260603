[package]
name = "scufris"
version = "0.1.0"
edition = "2021"
publish = false

[dependencies]
serde = { version = "=1.0.229", features = ["derive"] }
serde_json = "=1.0.154"
reqwest = { version = "=0.12.28", default-features = false, features = ["blocking", "rustls-tls"] }
clap = { version = "=4.6.7", features = ["derive"] }
nix = { version = "=0.29.0", features = ["signal"] }
x11rb = { version = "=0.13.2", features = ["shape"] }
thiserror = "=2.0.21"
tracing = "=0.1.44"
tracing-subscriber = { version = "=0.3.23", features = ["env-filter"] }
tracing-journald = "=0.3.2"

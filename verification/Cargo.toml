[package]
name = "rftp"
version = "0.1.0"
edition = "2021"
publish = false

[dependencies]
clap = { version = "=4.6.7", features = ["derive"] }
serde = { version = "=1.0.229", features = ["derive"] }
toml = "=1.1.8"
suppaftp = { version = "=7.1.0", features = ["rustls", "deprecated"] }
webpki-roots = "=1.0.10"

[package]
name = "dictionary_lookup"
version = "0.1.0"
edition = "2021"
publish = false

[dependencies]
log = "0.4"
reqwest = { version = "0.11", default-features = false, features = ["json", "rustls-tls"] }
serde_json = "1"
serenity = { version = "0.11", default-features = false, features = ["builder", "model", "rustls_backend"] }

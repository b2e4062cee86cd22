[package]
name = "weaviate_embedded"
version = "0.1.0"
edition = "2021"
publish = false

[dependencies]
regex = "=1.13.1"
simple-home-dir = { version = "=0.2.3", features = ["expand_tilde"] }
error-stack = "=0.8.0"
octocrab = "=0.40.0"
tokio = { version = "=1.54.1", features = ["rt", "rt-multi-thread"] }

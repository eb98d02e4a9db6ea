[package]
name = "lambda_types"
version = "0.1.0"
edition = "2021"
publish = false

[dependencies]
anyhow = "1"
depyler-annotations = "*"
serde = { version = "1", features = ["derive"] }

[package]
name = "code_context"
version = "0.1.0"
edition = "2021"
publish = false

[dependencies]
anyhow = "*"
clap = { version = "*", features = ["derive"] }
indicatif = "*"
prettyplease = "*"
quote = "*"
syn = { version = "*", features = ["full"] }
tracing = "*"
tracing-subscriber = "*"
walkdir = "*"

[package]
name = "sherpa_s3"
version = "0.1.0"
edition = "2021"
publish = false

[dependencies]
aws-sdk-s3 = "*"
clap = { version = "*", features = ["derive"] }
dirs = "*"
serde = { version = "*", features = ["derive"] }
tokio = { version = "*", features = ["macros", "rt-multi-thread", "fs", "io-util"] }
toml = "*"
tracing = "*"
tracing-subscriber = "*"

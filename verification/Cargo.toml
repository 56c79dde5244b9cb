[package]
name = "es2csv_rs"
version = "0.1.0"
edition = "2021"
publish = false

[dependencies]
serde_json = "*"
clap = "*"
tokio = { version = "*", features = ["macros", "rt-multi-thread"] }
elasticsearch = "=9.1.0-alpha.1"

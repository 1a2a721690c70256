[package]
name = "sqllog_parquet"
version = "0.1.0"
edition = "2021"
publish = false

[dependencies]
arrow = "*"
parquet = "*"

[dev-dependencies]
bytes = "*"

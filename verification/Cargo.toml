[package]
name = "ynab_export"
version = "0.1.0"
edition = "2021"
publish = false

[dependencies]
directories = "=6.0.0"
ynab-api = "=4.0.0"
tokio = { version = "*", features = ["rt"] }

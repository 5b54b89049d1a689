[package]
name = "orx-criterion"
version = "0.1.0"
edition = "2021"
publish = false

[dependencies]
criterion = { version = "*", default-features = false }
cli-table = { version = "*", default-features = false }
colorize = "*"

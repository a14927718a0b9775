[package]
name = "side_by_side_diff"
version = "0.1.0"
edition = "2021"
publish = false

[dependencies]
anyhow = "*"
futures = "*"
log = "*"

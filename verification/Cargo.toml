[package]
name = "virtual_branches"
version = "0.1.0"
edition = "2021"
publish = false

[dependencies]
anyhow = "1"
thiserror = "1"
tokio = { version = "1", default-features = false, features = ["sync"] }

[package]
name = "repo_provision"
version = "0.1.0"
edition = "2021"
publish = false

[dependencies]
serde_json = "*"
git2 = { version = "*", default-features = false }
reqwest = { version = "*", default-features = false }
tokio = { version = "*", features = ["rt", "time", "macros"] }

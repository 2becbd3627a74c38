[package]
name = "alexandrie"
version = "0.1.0"
edition = "2021"
publish = false

[dependencies]
semver = "1"
tide = "0.16"
async-std = "1"
diesel = { version = "1.4", features = ["sqlite"] }
serde = { version = "1", features = ["derive"] }
serde_json = "1"

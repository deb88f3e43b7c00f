[package]
name = "info"
version = "0.1.0"
edition = "2021"
publish = false

[dependencies]
semver = "1"
os_info = "3"
git-version = "0.3"
rustc_version = "0.4"
serde = { version = "1", features = ["derive"] }

[package]
name = "git-mirror"
version = "0.1.0"
edition = "2021"
publish = false

[dependencies]
clap = "=4.6.7"
git2 = { version = "=0.21.0", features = ["https", "ssh"] }
serde = { version = "=1.0.229", features = ["derive"] }
toml = "=1.1.8"

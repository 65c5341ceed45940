[package]
name = "relflow"
version = "0.1.0"
edition = "2021"
publish = false

[dependencies]
semver = "*"
toml = "*"
toml_edit = "*"
git2 = "*"
clap = { version = "*", features = ["derive"] }
serde = { version = "*", features = ["derive"] }

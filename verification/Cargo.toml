[package]
name = "dotnet_buildpack"
version = "0.1.0"
edition = "2021"
publish = false

[dependencies]
semver = "=1.0.28"
shell-words = "=1.1.1"
roxmltree = "=0.21.2"
quick-xml = { version = "=0.42.0", features = ["serialize"] }
serde = { version = "=1.0.229", features = ["derive"] }
serde_json = "=1.0.154"
toml = "=1.1.8"
fs-err = "=3.3.2"
indoc = "=2.0.8"
thiserror = "=2.0.21"
hex = "=0.4.3"
itertools = "=0.15.0"

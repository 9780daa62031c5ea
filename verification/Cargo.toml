[package]
name = "comp"
version = "0.1.0"
edition = "2021"
publish = false

[dependencies]
colored = "2"
exitcode = "1"
home = "0.5"
rand = "0.8"
regex = "1"
serde = { version = "1", features = ["derive"] }
serde_yaml = "0.9"
toml = "0.8"

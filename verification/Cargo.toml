[package]
name = "pybin"
version = "0.1.0"
edition = "2021"
publish = false

[dependencies]
clap = { version = "4", features = ["derive"] }
console = "*"
dirs = "*"
flate2 = "1"
indicatif = "*"
miette = "7"
serde = { version = "1", features = ["derive"] }
tar = "0.4"
tempfile = "3"
toml = "*"
tracing-subscriber = { version = "0.3", features = ["env-filter"] }
zstd = "*"

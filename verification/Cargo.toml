[package]
name = "cproject"
version = "0.1.0"
edition = "2021"
publish = false

[dependencies]
anyhow = "1"
chrono = "0.4"
clap = { version = "4", features = ["derive"] }
dirs = "*"
handlebars = "*"
num_cpus = "1"
regex = "1"
serde_json = "1"
shellexpand = "*"
shlex = "1"
toml = { version = "*", features = ["preserve_order"] }
tracing-subscriber = { version = "0.3", features = ["env-filter"] }
walkdir = "2"
which = "*"

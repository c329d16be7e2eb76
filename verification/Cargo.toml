[package]
name = "kiraz"
version = "0.1.0"
edition = "2021"
publish = false

[dependencies]
anyhow = "*"
image = "*"
shellexpand = "*"
slint = { version = "*", default-features = false, features = ["std", "compat-1-2"] }
structopt = "*"
tracing = "*"
tracing-subscriber = { version = "*", features = ["env-filter"] }

[package]
name = "filename_refactor"
version = "0.1.0"
edition = "2021"
publish = false

[dependencies]
anyhow = "*"
clap = { version = "*", features = ["derive"] }
clap_complete = "*"
deepl = "*"
dotenvy = "*"
env_logger = "*"
futures = "*"
log = "*"
rpassword = "*"
rust_support = "*"
tokio = { version = "*", features = ["full"] }

[dev-dependencies]
tempfile = "*"

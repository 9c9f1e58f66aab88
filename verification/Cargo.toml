[package]
name = "composite_sync"
version = "0.1.0"
edition = "2021"
publish = false

[dependencies]
clap = { version = "4", features = ["derive"] }
git2 = { version = "*", default-features = false, features = ["https"] }
log = "0.4"
pretty_env_logger = "*"
tempfile = "3"

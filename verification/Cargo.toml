[package]
name = "fanling"
version = "0.1.0"
edition = "2021"
publish = false

[dependencies]
difference = "2.0"
regex = "1"
rand = "0.7"
chrono = "0.4"
serde = { version = "1", features = ["derive"] }
serde_json = "1"
serde_yaml = "0.8"
structopt = "0.3"
git2 = { version = "*", default-features = false }
ansi_term = "0.12"
log = "0.4"

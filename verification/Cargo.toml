[package]
name = "scorecard_import"
version = "0.1.0"
edition = "2021"
publish = false

[dependencies]
chrono = "0.4"
csv = "1"
postgres = "0.19"
serde = { version = "1", features = ["derive"] }
structopt = "0.3"
toml = "0.5"

[package]
name = "combot"
version = "0.1.0"
edition = "2021"
publish = false

[dependencies]
anyhow = "1"
chrono = "0.4"
config = "0.11"
elefren = "0.22"
env_logger = "0.8"
getset = "0.1"
git2 = "0.13"
handlebars = "3"
log = "0.4"
serde = { version = "1", features = ["derive"] }
structopt = "0.3"
toml = "0.5"

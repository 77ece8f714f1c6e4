[package]
name = "talan"
version = "0.1.0"
edition = "2021"
publish = false

[dependencies]
failure = "0.1"
indicatif = "0.11"
log = "0.4"
pretty_env_logger = "0.3"
reqwest = "0.9"
serde = "1.0"
serde_derive = "1.0"
serde_json = "1.0"
structopt = "0.2"
url = "1.7"

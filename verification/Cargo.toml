[package]
name = "imdb_bot"
version = "0.1.0"
edition = "2021"
publish = false

[dependencies]
serde_json = "1"
ws = "0.9"
url = "2"
imdb-index = "0.1"
env_logger = "*"

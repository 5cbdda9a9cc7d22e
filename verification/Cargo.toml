[package]
name = "specgen"
version = "0.1.0"
edition = "2021"
publish = false

[dependencies]
handlebars = "4"
serde_json = "1"
openapi = "*"
walkdir = "*"
clap = "*"
log = "*"
env_logger = "*"

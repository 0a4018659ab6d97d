[package]
name = "civicsearch"
version = "0.1.0"
edition = "2021"
publish = false

[dependencies]
zip = "*"
shapefile = "*"
clap = "*"
csv = "*"
serde = { version = "*", features = ["derive"] }
env_logger = "*"
log = "*"

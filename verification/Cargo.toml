[package]
name = "oak_launcher"
version = "0.1.0"
edition = "2021"
publish = false

[dependencies]
anyhow = "1"
async-trait = "0.1"
bmrng = "0.5"
clap = { version = "3.1", features = ["derive"] }
env_logger = "0.9"
log = "0.4"
structopt = "0.3"
tokio = { version = "1", features = ["full"] }
tonic = { version = "0.3", default-features = false, features = ["transport"] }

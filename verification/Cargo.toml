[package]
name = "rustig"
version = "0.2.0"
edition = "2021"
publish = false

[dependencies]
petgraph = "=0.6.5"
serde_json = "=1.0.154"
fallible-iterator = "=0.3.0"
capstone = "=0.13.0"
clap = "=2.34.0"
error-chain = "=0.12.4"
gimli = { version = "=0.31.1", features = ["fallible-iterator"] }
object = "=0.36.7"
toml = "0.8"

[package]
name = "domo_cli"
version = "0.1.0"
edition = "2021"
publish = false

[dependencies]
domo = "=0.3.2"
structopt = "=0.3.26"
serde = "*"
serde_json = "*"
async-std = "*"

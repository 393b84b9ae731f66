[package]
name = "rancher"
version = "0.1.0"
edition = "2021"
publish = false

[dependencies]
base64 = "0.13"
clap = "2"
curl = "0.4"
regex = "1"
serde_json = "1"
tabwriter = "1"

[package]
name = "toast"
version = "0.1.0"
edition = "2021"
publish = false

[dependencies]
async-std = "=1.13.2"
color-eyre = "=0.5.11"
owo-colors = "=1.3.0"
semver = "=0.10.0"
serde_json = "=1.0.154"
structopt = "=0.3.26"
sys-info = "=0.9.1"
tracing = "=0.1.44"
tracing-error = "=0.1.2"
tracing-subscriber = "=0.2.25"
url = "=2.2.2"

[package]
name = "mdevctl"
version = "0.1.0"
edition = "2021"
publish = false

[dependencies]
serde_json = "*"
uuid = "*"
anyhow = "*"
log = "*"
libsystemd = "*"
structopt = "*"

[package]
name = "lw_webdriver"
version = "0.1.0"
edition = "2021"
publish = false

[dependencies]
minreq = "*"
serde_json = "*"
log = "*"

[package]
name = "lnp_locator"
version = "0.1.0"
edition = "2021"
publish = false

[dependencies]
amplify = "2"
bitcoin = "*"
url = "2"

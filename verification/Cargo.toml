[package]
name = "passgen"
version = "0.1.0"
edition = "2021"
publish = false

[dependencies]
rand = "0.8"
colored = "2"
dialoguer = "0.11"
indicatif = "0.17"
inquire = "0.7"

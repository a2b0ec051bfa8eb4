[package]
name = "ccb_cli"
version = "0.1.0"
edition = "2021"
publish = false

[dependencies]
console = "*"
dialoguer = "*"
git2 = "*"
git2_credentials = "*"

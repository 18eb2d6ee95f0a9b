[package]
name = "inventory_demo"
version = "0.1.0"
edition = "2021"
publish = false

[dependencies]
rand = "*"
postgres = "*"
postgres-openssl = "*"
openssl = "*"

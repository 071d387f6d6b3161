[package]
name = "database_pools"
version = "0.1.0"
edition = "2021"
publish = false

[dependencies]
anyhow = "1"
dotenvy = "*"
secrecy = "*"

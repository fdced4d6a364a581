[package]
name = "da_fixtures"
version = "0.1.0"
edition = "2021"
publish = false

[dev-dependencies]
borsh = "*"

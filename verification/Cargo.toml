[package]
name = "acct201"
version = "0.1.0"
edition = "2021"
publish = false

[dependencies]
thousands = "0.2"
thiserror = "1"

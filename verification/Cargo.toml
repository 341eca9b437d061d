[package]
name = "arbitrum_core"
version = "0.1.0"
edition = "2021"
publish = false

[dependencies]
stylus-sdk = "*"
openzeppelin-stylus = "=0.2.0"
ruint = "=1.12.3"

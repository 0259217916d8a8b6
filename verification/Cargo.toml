[package]
name = "key_expr"
version = "0.1.0"
edition = "2021"

[dependencies]
zenoh-core = "=0.6.0-beta.1"
zenoh-protocol-core = "=0.6.0-beta.1"

[package]
name = "xjbutil"
version = "0.1.0"
edition = "2021"
publish = false

[dependencies]
serde = "*"
pollster = "*"
futures = "*"

[package]
name = "oats"
version = "0.1.0"
edition = "2021"

[dependencies]
base64 = "0.22"

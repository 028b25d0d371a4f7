[package]
name = "genrs_lib"
version = "0.1.0"
edition = "2021"
publish = false

[dependencies]
base64 = "0.22"
hex = "0.4"
rand = "0.8"
uuid = { version = "1", features = ["v1", "v3", "v4", "v5"] }
clap = "4"

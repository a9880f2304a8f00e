[package]
name = "pixport"
version = "0.1.0"
edition = "2021"
publish = false

[dependencies]
image = "0.25"
tar = "0.4"
base64 = "0.22"

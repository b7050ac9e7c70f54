[package]
name = "menoh_captioning"
version = "0.1.0"
edition = "2021"
publish = false

[dependencies]
docopt = "1"
image = "0.21"
menoh = "*"
serde = "1"
serde_derive = "1"

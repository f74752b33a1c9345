[package]
name = "wavdelta"
version = "0.1.0"
edition = "2021"
publish = false

[dependencies]
hound = "*"
q_compress = "*"
clap = { version = "*", features = ["derive"] }

[package]
name = "libinjection"
version = "0.1.0"
edition = "2021"
publish = false

[dependencies]
memchr = "2"
toml = "0.8"
glob = "0.3"
clap = { version = "4", features = ["derive"] }

[package]
name = "hubuum_cli"
version = "0.1.0"
edition = "2021"
publish = false

[dependencies]
rand = "0.8"
reqwest = { version = "0.12", default-features = false, features = ["blocking"] }
rustyline = "14"
clap = "4"

[dev-dependencies]
shlex = "1"

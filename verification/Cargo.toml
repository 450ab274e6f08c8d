[package]
name = "mlcp"
version = "0.1.0"
edition = "2021"
publish = false

[dependencies]
clap = { version = "3.2", features = ["derive"] }
console = "0.15"
glob = "0.3"
indicatif = "0.17"

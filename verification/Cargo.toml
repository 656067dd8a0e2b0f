[package]
name = "opengov_cli"
version = "0.1.0"
edition = "2021"
publish = false

[dependencies]
hex = "0.4.3"
sp-core = "*"
parity-scale-codec = { version = "*", features = ["derive"] }
clap = { version = "*", features = ["derive"] }
tokio = { version = "*", features = ["macros", "rt-multi-thread"] }

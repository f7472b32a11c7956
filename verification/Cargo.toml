[package]
name = "glitter"
version = "0.1.0"
edition = "2021"
publish = false

[dependencies]
yaml-rust = "0.4"
clap = { version = "4", features = ["derive"] }
exitcode = "1"
snafu = "0.7"

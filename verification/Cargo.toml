[package]
name = "chess_cli"
version = "0.1.0"
edition = "2021"
publish = false

[dependencies]
chess = "3.2"
tokio = { version = "1", features = ["rt-multi-thread", "macros", "process", "io-util"] }
clap = "4"
anyhow = "1"

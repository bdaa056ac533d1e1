[package]
name = "weathr"
version = "0.1.0"
edition = "2021"
publish = false

[dependencies]
clap = { version = "*", features = ["derive"] }
crossterm = "*"
tokio = { version = "*", features = ["macros", "rt-multi-thread", "time"] }

[package]
name = "nvim_ec"
version = "0.1.0"
edition = "2021"
publish = false

[dependencies]
rmpv = "1"
clap = { version = "4", features = ["derive"] }

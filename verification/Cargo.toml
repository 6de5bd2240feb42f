[package]
name = "arprender"
version = "0.1.0"
edition = "2021"
publish = false

[dependencies]
clap = { version = "4", features = ["derive"] }
pnet = "*"
rand = "0.8"
tabled = "*"
tokio = { version = "1", default-features = false, features = ["sync"] }

[package]
name = "placer"
version = "0.1.0"
edition = "2021"
publish = false

[dependencies]
png = "*"
rand = "*"
tokio = { version = "*", features = ["rt-multi-thread", "macros", "fs", "time"] }
reqwest = { version = "*", default-features = false, features = ["json"] }
deadpool = "*"
clap = { version = "*", features = ["derive"] }
serde = { version = "*", features = ["derive"] }
serde_json = "*"

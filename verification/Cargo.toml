[package]
name = "vor_router"
version = "0.1.0"
edition = "2021"
publish = false

[dependencies]
rosc = "*"
tokio = { version = "1", features = ["sync", "net", "rt-multi-thread", "time"] }
serde = { version = "1", features = ["derive"] }
serde_json = "1"
directories = "*"
clap = { version = "4", features = ["derive"] }

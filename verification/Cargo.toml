[package]
name = "litter_terminal"
version = "0.1.0"
edition = "2021"
publish = false

[dependencies]
async-trait = "0.1"
portable-pty = "*"
russh = { version = "*", default-features = false, features = ["ring"] }
tokio = { version = "1", features = ["rt", "sync"] }
uuid = { version = "1", features = ["v4"] }

[package]
name = "explora"
version = "0.1.0"
edition = "2021"
publish = false

[dependencies]
raylib = "5.5"
tokio = { version = "1", features = ["macros", "rt-multi-thread"] }
ez-reqwest = "*"

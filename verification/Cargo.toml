[package]
name = "courier"
version = "0.1.0"
edition = "2021"
publish = false

[dependencies]
mail-parser = "*"
html2text = "*"
imap = "*"
reqwest = { version = "*", default-features = false, features = ["multipart"] }
serde = { version = "*", features = ["derive"] }
serde_json = "*"
tokio = { version = "*", features = ["macros", "rt-multi-thread", "time"] }
toml = "*"

[package]
name = "lyrics_query"
version = "0.1.0"
edition = "2021"
publish = false

[dependencies]
lrc = "*"
html-escape = "*"
reqwest = { version = "*", default-features = false, features = ["blocking"] }
serde = { version = "*", features = ["derive"] }
serde_json = "*"

[package]
name = "tomato_timer"
version = "0.1.0"
edition = "2021"
publish = false

[dependencies]
chrono = "0.4"
clap = { version = "4", features = ["cargo"] }
cursive = { version = "0.21", default-features = false, features = ["crossterm-backend", "toml"] }
tokio = { version = "1", features = ["full"] }
rodio = "0.17"

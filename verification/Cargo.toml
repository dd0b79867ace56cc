[package]
name = "health_check"
version = "0.1.0"
edition = "2021"
publish = false

[dependencies]
reqwest = { version = "=0.13.5", default-features = false, features = ["blocking"] }
url = "=2.5.8"
nvim-oxi = { version = "=0.6.0", features = ["neovim-0-11"] }
serde = { version = "=1.0.229", features = ["derive"] }

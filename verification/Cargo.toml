[package]
name = "claude_relay"
version = "0.1.0"
edition = "2021"
publish = false

[dependencies]
actix-web = "*"
anthropic = "*"
dotenv = "*"
serde = { version = "*", features = ["derive"] }

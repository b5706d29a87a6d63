[package]
name = "promptforge"
version = "0.1.0"
edition = "2021"
publish = false

[dependencies]
futures = "0.3"
handlebars = "*"
messageforge = "*"
serde = { version = "1", features = ["derive"] }
serde_json = "1"
toml = "*"

[package]
name = "mosaic"
version = "0.1.0"
edition = "2021"
publish = false

[dependencies]
base64 = "*"
toml = "*"
serde = { version = "*", features = ["derive"] }
serde_json = "*"
reqwest = { version = "*", default-features = false, features = ["json"] }
sqlx = { version = "*", default-features = false, features = ["runtime-tokio", "postgres"] }
tokio = { version = "*", features = ["rt-multi-thread", "macros"] }

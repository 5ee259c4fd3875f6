[package]
name = "spa_assets"
version = "0.1.0"
edition = "2021"
publish = false

[dependencies]
percent-encoding = "*"
mime_guess = "*"
axum = "*"
tokio = { version = "*", features = ["rt-multi-thread", "macros", "net"] }
tower = "*"
tower-http = { version = "*", features = ["compression-gzip", "compression-br", "trace"] }
serde = { version = "*", features = ["derive"] }

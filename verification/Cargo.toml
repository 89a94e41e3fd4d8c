[package]
name = "settlement"
version = "0.1.0"
edition = "2021"
publish = false

[dependencies]
anyhow = "*"
axum = "*"
axum-extra = { version = "*", features = ["typed-header"] }
clap = { version = "*", features = ["derive", "env"] }
hyper = "*"
jsonwebtoken = "*"
prefix-hex = "*"
serde = { version = "*", features = ["derive"] }
serde_json = "*"
serde_with = "*"
siwe = "*"
thiserror = "*"
tokio = { version = "*", features = ["macros", "net", "rt-multi-thread", "time"] }

[package]
name = "rusty-app"
version = "0.1.0"
edition = "2021"
publish = false

[dependencies]
dirs = "6"
iced = { version = "0.13", default-features = false, features = ["tokio", "tiny-skia"] }
nerd_font = "*"
serde = { version = "1", features = ["derive"] }
thiserror = "2"
tokio = { version = "1", features = ["sync", "time", "rt"] }
toml = "0.8"
tracing = "0.1"

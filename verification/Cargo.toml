[package]
name = "spotify_manager"
version = "0.1.0"
edition = "2021"
publish = false

[dependencies]
anyhow = "=1.0.104"
clap = { version = "=4.6.7", features = ["derive"] }
rand = "=0.9.5"
ron = "=0.12.2"
serde = { version = "=1.0.229", features = ["derive"] }
spotify-rs = "=0.3.14"
thiserror = "=2.0.21"
tokio = { version = "=1.54.1", features = ["macros", "rt-multi-thread"] }
url = "=2.5.8"

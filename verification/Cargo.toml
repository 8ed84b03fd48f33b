[package]
name = "snipe"
version = "0.1.0"
edition = "2021"
publish = false

[dependencies]
anyhow = "1"
chrono = { version = "0.4", default-features = false, features = ["std"] }
chrono-tz = "0.8"
clap = { version = "4", default-features = false, features = ["std", "derive", "cargo", "help", "usage", "error-context"] }
ethers-providers = { version = "2", default-features = false, features = ["rustls"] }
figment = { version = "0.10", features = ["toml", "env"] }
serde = { version = "1", features = ["derive"] }
serde_json = "1"
tokio = { version = "1", features = ["macros", "rt-multi-thread"] }

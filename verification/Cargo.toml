[package]
name = "fash"
version = "0.1.0"
edition = "2021"
publish = false

[dependencies]
chrono = "0.4"
clap = { version = "4", features = ["derive"] }
directories = "5"
dotenv = "0.15"
rand = "0.8"
reqwest = { version = "0.12", default-features = false, features = ["json", "rustls-tls"] }
serde = { version = "1", features = ["derive"] }
serde_json = "1"
tokio = { version = "1", features = ["macros", "rt-multi-thread"] }
toml = "0.8"
tracing = "0.1"
tracing-subscriber = "0.3"

[package]
name = "gequke"
version = "0.1.0"
edition = "2021"
publish = false

[dependencies]
scraper = "*"
regex = "*"
rusqlite = { version = "*", features = ["bundled"] }
reqwest = { version = "*", default-features = false, features = ["rustls-tls", "json"] }
tokio = { version = "*", features = ["macros", "rt-multi-thread"] }
clap = { version = "4", features = ["derive"] }
colored = "*"
tabled = "*"
dirs = "*"
chrono = "*"
serde = { version = "1", features = ["derive"] }
serde_json = "1"
anyhow = "1"

[package]
name = "luzbot"
version = "0.1.0"
edition = "2021"
publish = false

[dependencies]
chrono = "=0.4.45"
dotenv = "=0.15.0"
dptree = "=0.3.0"
reqwest = { version = "=0.11.27", features = ["json"] }
serde = { version = "=1.0.229", features = ["derive"] }
takecell = "=0.1.1"
teloxide = { version = "=0.10.1", features = ["macros", "auto-send"] }
tokio = { version = "=1.54.1", features = ["rt-multi-thread", "macros", "sync"] }
tracing = "=0.1.44"
tracing-subscriber = "=0.3.23"

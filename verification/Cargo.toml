[package]
name = "vtop"
version = "0.1.0"
edition = "2021"
publish = false

[dependencies]
scraper = "=0.27.0"
base64 = "=0.23.1"
serde = { version = "=1.0.229", features = ["derive"] }
serde_json = "=1.0.151"
tokio = { version = "=1.53.2", default-features = false, features = ["rt-multi-thread", "macros", "time"] }
reqwest = { version = "=0.13.5", default-features = false, features = ["cookies", "multipart", "json", "form"] }

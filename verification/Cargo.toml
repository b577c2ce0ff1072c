[package]
name = "oxidize"
version = "0.1.0"
edition = "2021"
publish = false

[dependencies]
chrono = "=0.4.45"
dotenv = "=0.15.0"
log = "=0.4.34"
poise = "=0.6.2"
rand = "=0.8.8"
reqwest = { version = "=0.12.28", default-features = false, features = ["json", "rustls-tls"] }
serde = { version = "=1.0.229", features = ["derive"] }
simple_logger = "=5.2.0"
tokio = { version = "=1.54.1", features = ["macros", "rt-multi-thread", "sync", "time"] }

[package]
name = "ip_random_bot"
version = "0.1.0"
edition = "2021"
publish = false

[dependencies]
serde_json = "1"
rand = "0.8"
serde = { version = "1", features = ["derive"] }
log = "0.4"
env_logger = "0.10"
dotenv = "0.15"
tokio = { version = "1", features = ["macros", "rt-multi-thread"] }
teloxide = { version = "0.12", default-features = false, features = ["rustls", "ctrlc_handler"] }
dptree = "0.3"
reqwest = { version = "0.11", default-features = false, features = ["json", "rustls-tls"] }
takecell = "=0.1.1"

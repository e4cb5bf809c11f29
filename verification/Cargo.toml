[package]
name = "listing_bot"
version = "0.1.0"
edition = "2021"
publish = false

[dependencies]
dptree = "=0.3.0"
log = "=0.4.34"
pretty_env_logger = "=0.5.0"
reqwest = { version = "=0.11.27", features = ["blocking", "json"] }
serde = { version = "=1.0.229", features = ["derive"] }
# Not used directly: teloxide-core pulls it in, and 0.1.2 asks for a newer rustc than 1.95.
takecell = "<0.1.2"
teloxide = "=0.13.0"
tokio = { version = "=1.54.1", features = ["macros", "rt-multi-thread"] }

[package]
name = "sheet_fetch"
version = "0.1.0"
edition = "2021"
publish = false

[dependencies]
scraper = "*"
anyhow = "*"
log = "*"
pretty_env_logger = "*"
thiserror = "*"
tokio = { version = "*", features = ["macros", "rt-multi-thread"] }
async-trait = "*"
reqwest = { version = "*", default-features = false }
thirtyfour = "*"

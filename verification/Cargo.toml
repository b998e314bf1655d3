[package]
name = "mcp_suite"
version = "0.1.0"
edition = "2021"
publish = false

[dependencies]
url = "2"
sha2 = "0.10"
base64 = "0.22"
scraper = "*"
html2md = "*"
dirs = "*"
urlencoding = "2"
serde = { version = "1", features = ["derive"] }
serde_json = "1"
toml = "*"
anyhow = "1"
thiserror = "*"
axum = "*"
tower = "*"
tokio = { version = "1", features = ["full"] }
futures = "0.3"
async-trait = "0.1"
clap = { version = "4", features = ["derive"] }
console = "*"
indicatif = "*"
tabled = "*"
tracing = "0.1"
tracing-subscriber = { version = "0.3", features = ["env-filter"] }
tracing-appender = "0.2"
dotenv = "0.15"
governor = "*"
reqwest = { version = "*", default-features = false, features = ["json"] }

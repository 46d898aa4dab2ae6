[package]
name = "agentctl"
version = "0.1.0"
edition = "2021"
publish = false

[dependencies]
anyhow = "=1.0.104"
async-trait = "=0.1.92"
base64 = "=0.22.1"
chrono = "=0.4.45"
clap = { version = "=4.6.7", features = ["derive"] }
colored = "=3.1.1"
glob = "=0.3.4"
libc = "=0.2.191"
opencode-sdk = "=0.1.7"
ratatui = { version = "=0.29.0", default-features = false, features = ["crossterm"] }
rust-embed = { version = "=8.13.0", features = ["include-exclude"] }
sea-orm = { version = "=1.1.20", default-features = false, features = ["sqlx-sqlite", "runtime-tokio", "macros", "with-chrono", "with-json"] }
sea-orm-migration = { version = "=1.1.20", default-features = false, features = ["sqlx-sqlite"] }
serde = { version = "=1.0.229", features = ["derive"] }
serde_json = "=1.0.154"
tokio = { version = "=1.54.1", features = ["full"] }
ureq = { version = "=3.5.1", default-features = false, features = ["json"] }

[package]
name = "risk_management"
version = "0.1.0"
edition = "2021"
publish = false

[dependencies]
chrono = { version = "=0.4.45", features = ["serde"] }
serde = { version = "1", features = ["derive"] }
serde_json = "1"
thiserror = "1"
async-trait = "0.1"
tracing = "0.1"
reqwest = { version = "=0.12.28", default-features = false, features = ["json"] }
teloxide = { version = "=0.12.2", default-features = false, features = ["rustls", "ctrlc_handler"] }
dptree = "=0.3.0"
takecell = "=0.1.1"

[package]
name = "cdda_cat"
version = "0.1.0"
edition = "2021"
publish = false

[dependencies]
anyhow = "1"
app_dirs2 = "2"
async-trait = "0.1"
bpaf = "0.9"
chrono = { version = "0.4", features = ["serde"] }
flate2 = "1"
futures-util = "0.3"
indicatif = "0.17"
reqwest = { version = "0.11", default-features = false, features = ["json", "stream", "rustls-tls"] }
serde = { version = "1", features = ["derive"] }
serde_json = "1"
tar = "0.4"
tokio = { version = "1", features = ["rt", "macros"] }

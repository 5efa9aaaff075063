[package]
name = "ats_scanner"
version = "0.1.0"
edition = "2021"
publish = false

[dependencies]
regex = "1"
anyhow = "1"
thiserror = "1"
serde = { version = "1", features = ["derive"] }
serde_json = "1"
log = "0.4"
env_logger = "0.11"
chrono = { version = "0.4", features = ["serde"] }
uuid = { version = "1", features = ["v4"] }
tokio = { version = "1", features = ["full"] }
encoding_rs = "0.8"
quick-xml = "0.31"
zip = { version = "*", default-features = false, features = ["deflate"] }
pdf-extract = "*"
lopdf = "*"
mime_guess = "2"
dateparser = "*"
dirs = "*"
sqlx = { version = "0.7", default-features = false, features = ["sqlite", "runtime-tokio", "chrono"] }
reqwest = { version = "0.12", default-features = false, features = ["json"] }

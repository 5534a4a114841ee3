[package]
name = "git_host"
version = "0.1.0"
edition = "2021"
publish = false

[dependencies]
url = "2"
urlencoding = "2"
chrono = "0.4"
axum = { version = "*", default-features = false }
serde = { version = "1", features = ["derive"] }
serde_json = "1"
tempfile = "3"
thiserror = "*"
directories = "*"
tokio = { version = "1", features = ["rt", "macros"] }
backon = "1"
reqwest = { version = "*", default-features = false, features = ["json"] }
uuid = { version = "1", features = ["serde"] }

[package]
name = "schloss"
version = "0.1.0"
edition = "2021"
publish = false

[dependencies]
serde_json = "1"
serde = { version = "1", features = ["derive"] }
log = "0.4"
env_logger = "0.11"
actix-web = { version = "4", default-features = false, features = ["cookies", "macros"] }
actix-rt = "2"
reqwest = { version = "0.12", default-features = false, features = ["json", "blocking"] }

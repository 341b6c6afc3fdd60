[package]
name = "egdata_client"
version = "0.1.0"
edition = "2021"
publish = false

[dependencies]
serde_json = "1"
serde = { version = "1", features = ["derive"] }
tokio = { version = "1", features = ["rt-multi-thread", "macros", "time"] }
reqwest = { version = "0.12", default-features = false, features = ["multipart", "json"] }
dirs = "*"
once_cell = "1"
chrono = { version = "0.4", default-features = false, features = ["clock"] }

[package]
name = "article_store"
version = "0.1.0"
edition = "2021"
publish = false

[dependencies]
chrono = { version = "*", features = ["serde"] }
diesel = { version = "*", features = ["postgres", "uuid", "chrono"] }
sapper = "*"
sapper_std = "*"
serde = { version = "*", features = ["derive"] }
serde_json = "*"
uuid = { version = "*", features = ["v4", "serde"] }

[package]
name = "neuronotes_db"
version = "0.1.0"
edition = "2021"
publish = false

[dev-dependencies]
sqlx = { version = "0.8", default-features = false, features = ["sqlite", "runtime-tokio", "migrate"] }
tokio = { version = "1", default-features = false, features = ["rt"] }

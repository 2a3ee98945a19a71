[package]
name = "otterbrix_bench"
version = "0.1.0"
edition = "2021"
publish = false

[dependencies]
rand = "0.8"
rand_chacha = "0.3"
tempfile = "3"
tokio = { version = "1", features = ["rt"] }
sea-orm = { version = "1", default-features = false, features = ["proxy"] }
sqlx-core = { version = "0.8", default-features = false }

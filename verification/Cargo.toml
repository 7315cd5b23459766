[package]
name = "bigbang"
version = "0.1.0"
edition = "2021"
publish = false

[dependencies]
actix-cors = "*"
actix-http = "*"
actix-rt = "*"
actix-web = "*"
actix-web-prom = "*"
config = "*"
deadpool = "*"
deadpool-postgres = "*"
dotenv = "*"
env_logger = "*"
futures = "*"
postgres-types = "*"
prometheus = "*"
serde = { version = "*", features = ["derive"] }
tokio-postgres = "*"
tracing = "*"
tracing-subscriber = "*"

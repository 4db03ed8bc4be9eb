[package]
name = "viloz"
version = "0.1.0"
edition = "2021"
publish = false

[dependencies]
crossbeam = "0.8"
dashmap = "5"
argon2 = "0.5"
rand = "0.8"
ip-in-subnet = "*"
actix-web = "4"
actix-cors = "0.6"
sqlx = { version = "0.7", features = ["sqlite", "runtime-tokio"] }
futures = "0.3"
futures-util = "0.3"
serde = { version = "1", features = ["derive"] }
toml = "0.8"
ctrlc = "3"
log = "0.4"
anyhow = "1"

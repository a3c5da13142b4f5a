[package]
name = "blog_core"
version = "0.1.0"
edition = "2021"
publish = false

[dependencies]
actix-cors = "=0.7.2"
actix-web = { version = "=4.18.1", default-features = false, features = ["macros"] }
anyhow = "=1.0.104"
argon2 = { version = "=0.5.3", features = ["std"] }
chrono = "=0.4.45"
clap = { version = "=4.6.7", features = ["derive"] }
dotenvy = "=0.15.7"
futures-util = "=0.3.34"
jsonwebtoken = { version = "=10.4.0", features = ["rust_crypto"] }
prost = "=0.14.4"
reqwest = { version = "=0.12.28", default-features = false, features = ["json"] }
serde = { version = "=1.0.229", features = ["derive"] }
serde_json = "=1.0.154"
sqlx = { version = "=0.8.6", default-features = false, features = ["runtime-tokio", "postgres", "uuid", "chrono", "migrate"] }
thiserror = "=2.0.21"
tokio = { version = "=1.54.1", features = ["rt-multi-thread", "macros"] }
tonic = "=0.14.6"
tonic-prost = "=0.14.6"
tracing = "=0.1.44"
tracing-subscriber = { version = "=0.3.23", features = ["env-filter", "time"] }
uuid = { version = "=1.29.0", features = ["v4", "serde"] }

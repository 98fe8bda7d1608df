[package]
name = "mapauth"
version = "0.1.0"
edition = "2021"
publish = false

[dependencies]
actix-cors = "=0.7.2"
actix-files = "=0.7.0"
actix-service = "=2.0.3"
actix-web = "=4.15.0"
anyhow = "=1.0.104"
async-trait = "=0.1.92"
chrono = "=0.4.45"
dotenv = "=0.15.0"
env_logger = "=0.11.11"
futures = "=0.3.34"
jsonwebtoken = { version = "=11.1.0", features = ["rust_crypto"] }
reqwest = { version = "=0.13.5", default-features = false, features = ["form", "json"] }
serde = { version = "=1.0.229", features = ["derive"] }
serde_json = "=1.0.151"
thiserror = "=2.0.21"
tokio = { version = "=1.53.2", features = ["macros", "rt-multi-thread", "time", "sync"] }
utoipa = { version = "=6.0.0", features = ["actix_extras"] }
uuid = { version = "=1.27.0", features = ["v4"] }

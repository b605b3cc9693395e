[package]
name = "rag_chatbot"
version = "0.1.0"
edition = "2021"
publish = false

[dependencies]
axum = "=0.6.20"
colored = "=2.2.0"
pgvector = { version = "0.4", features = ["sqlx"] }
reqwest = { version = "=0.11.27", features = ["json"] }
serde = { version = "=1.0.229", features = ["derive"] }
serde_json = "=1.0.151"
spinners = "=4.2.0"
sqlx = { version = "0.8", default-features = false, features = ["postgres", "runtime-tokio-native-tls", "json"] }
thiserror = "=1.0.69"
tokio = { version = "=1.53.2", features = ["full"] }
toml = "=0.8.23"

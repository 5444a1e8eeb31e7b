[package]
name = "todo_api"
version = "0.1.0"
edition = "2021"
publish = false

[dependencies]
surrealdb-core = { version = "=1.5.6", default-features = false, features = ["kv-mem", "kv-surrealkv"] }
serde = { version = "1", features = ["derive"] }
serde_json = "1"
chrono = "0.4"
thiserror = "1"
log = "0.4"
tokio = { version = "1", features = ["rt-multi-thread", "macros", "net", "io-util"] }

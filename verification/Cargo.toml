[package]
name = "customer_onboarding"
version = "0.1.0"
edition = "2021"
publish = false

[dependencies]
actix-web = "4"
chrono = { version = "0.4", features = ["serde"] }
confik = "*"
deadpool-postgres = { version = "*", features = ["serde"] }
derive_more = { version = "*", features = ["display", "error", "from"] }
dotenvy = "0.15"
env_logger = "0.11"
futures-util = "0.3"
jsonwebtoken = "9"
log = "0.4"
postgres-types = { version = "0.2", features = ["derive"] }
rust_decimal = { version = "1", features = ["db-tokio-postgres"] }
serde = { version = "1", features = ["derive"] }
serde_json = "1"
sha3 = "0.10"
thiserror = "1"
tokio = { version = "1", features = ["macros", "rt-multi-thread", "time"] }
tokio-pg-mapper = "0.2"
tokio-pg-mapper-derive = "0.2"
tokio-postgres = { version = "0.7", features = ["with-uuid-1", "with-chrono-0_4"] }
uuid = { version = "1", features = ["v4", "serde"] }

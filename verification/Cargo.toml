[package]
name = "kaya"
version = "0.1.0"
edition = "2021"
publish = false

[dependencies]
uuid = { version = "=1.29.0", features = ["v7", "serde"] }
time = { version = "=0.3.55", features = ["formatting", "parsing", "macros"] }
serde = { version = "=1.0.229", features = ["derive"] }
serde_json = "=1.0.154"
sqlx = { version = "=0.8.6", default-features = false, features = ["postgres", "runtime-tokio", "uuid", "time", "json", "rust_decimal"] }
tokio = { version = "=1.54.1", features = ["rt-multi-thread", "macros", "time", "sync"] }
rust_decimal = "=1.43.0"
thiserror = "=2.0.21"
async-trait = "=0.1.92"
tracing = "=0.1.44"

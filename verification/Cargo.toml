[package]
name = "rs_server"
version = "0.1.0"
edition = "2021"
publish = false

[dependencies]
rust_decimal = "1"
uuid = { version = "1", features = ["v4"] }
time = "0.3"
sqlx = { version = "0.8", default-features = false, features = ["postgres", "runtime-tokio", "derive", "uuid", "time", "rust_decimal"] }
tokio = { version = "1", features = ["macros", "rt-multi-thread"] }
async-trait = "0.1"
thiserror = "2"
serde = { version = "1", features = ["derive"] }
dotenvy = "0.15"
config = { version = "0.14", default-features = false, features = ["toml"] }

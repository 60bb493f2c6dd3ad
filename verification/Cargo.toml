[package]
name = "url_shortener"
version = "0.1.0"
edition = "2021"
publish = false

[dependencies]
time = "*"
url = "*"
anyhow = "*"
async-trait = "*"
axum = "*"
rearch = "*"
rearch-effects = "*"
sea-orm = { version = "*", default-features = false, features = ["macros", "with-time", "sqlx-postgres", "runtime-tokio-rustls"] }
serde = { version = "*", features = ["derive"] }
thiserror = "*"
tokio = { version = "*", features = ["macros", "rt-multi-thread", "net"] }
tracing = "*"
tracing-subscriber = "*"
uuid = { version = "*", features = ["v4"] }

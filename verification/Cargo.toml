[package]
name = "haretropanel"
version = "0.1.0"
edition = "2021"
publish = false

[dependencies]
askama = "*"
async-trait = "*"
axum = { version = "*", features = ["ws"] }
reqwest = { version = "*", default-features = false, features = ["json"] }
serde = { version = "*", features = ["derive"] }
serde_json = "*"
tokio = { version = "*", features = ["full"] }
tower-http = { version = "*", features = ["trace"] }
tracing = "*"
url = "*"

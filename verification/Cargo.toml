[package]
name = "rust2prod"
version = "0.1.0"
edition = "2021"
publish = false

[dependencies]
axum = "0.6"
config = { version = "0.13", default-features = false, features = ["yaml"] }
reqwest = { version = "0.11", default-features = false, features = ["json", "rustls-tls"] }
serde = { version = "1", features = ["derive"] }
sqlx = { version = "0.7", default-features = false, features = ["runtime-tokio-rustls", "postgres", "uuid", "chrono"] }
tokio = { version = "1", features = ["macros", "rt-multi-thread", "net"] }
tower = "0.4"
tower-http = { version = "0.4", features = ["trace"] }
tracing = "0.1"
unicode-segmentation = "1"
uuid = { version = "1", features = ["v4"] }
validator = "0.16"

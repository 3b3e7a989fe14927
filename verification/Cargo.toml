[package]
name = "zero2prod"
version = "0.1.0"
edition = "2021"
publish = false

[dependencies]
uuid = { version = "*", features = ["v4"] }
chrono = "*"
actix-web = { version = "*", default-features = false, features = ["macros"] }
sqlx = { version = "*", default-features = false, features = ["runtime-tokio", "postgres", "migrate", "chrono", "uuid"] }
tokio = { version = "*", features = ["macros", "rt-multi-thread"] }
serde = { version = "*", features = ["derive"] }
config = { version = "*", default-features = false, features = ["yaml"] }
secrecy = { version = "*", features = ["serde"] }
tracing = "*"
tracing-subscriber = { version = "*", default-features = false, features = ["env-filter", "registry", "fmt", "std"] }
tracing-bunyan-formatter = "*"
tracing-log = "*"

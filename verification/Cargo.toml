[package]
name = "phthonus"
version = "0.1.0"
edition = "2021"
publish = false

[dependencies]
anyhow = "=1.0.104"
argon2 = "=0.5.3"
axum = "=0.8.9"
chrono = "=0.4.45"
dotenvy = "=0.15.7"
http-body = "=1.1.0"
jsonwebtoken = "=9.3.1"
serde = { version = "=1.0.229", features = ["derive"] }
serde_json = "=1.0.154"
serde_repr = "=0.1.21"
thiserror = "=1.0.69"
tokio = { version = "=1.54.1", features = ["full"] }
tower = "=0.5.3"
tower-http = { version = "=0.7.1", features = ["compression-gzip", "cors", "timeout", "trace"] }
tracing = "=0.1.44"
tracing-subscriber = { version = "=0.3.23", features = ["env-filter"] }
xitca-http = { version = "=0.7.1", features = ["io-uring"] }
xitca-io = { version = "=0.4.1", features = ["runtime-uring"] }
xitca-server = { version = "=0.5.0", features = ["io-uring"] }
xitca-service = "=0.3.0"
xitca-web = { version = "=0.7.1", features = ["tower-http-compat", "io-uring"] }

[dev-dependencies]
regex = "=1.13.1"

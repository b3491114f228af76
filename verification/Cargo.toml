[package]
name = "image_annotation"
version = "0.1.0"
edition = "2021"
publish = false

[dependencies]
anyhow = "*"
aws-config = { version = "*", features = ["behavior-version-latest"] }
aws-sdk-s3 = "*"
axum = "*"
dotenvy = "*"
libsql = "*"
multer = "*"
serde = { version = "*", features = ["derive"] }
tokio = { version = "*", features = ["full"] }
tower-http = { version = "*", features = ["fs"] }
tracing = "*"
tracing-subscriber = { version = "*", features = ["env-filter"] }

[package]
name = "r2_uploader"
version = "0.1.0"
edition = "2021"
publish = false

[dependencies]
aws-config = "1"
aws-sdk-s3 = "1"
aws-smithy-runtime = { version = "1", features = ["connector-hyper-0-14-x"] }
base64 = "0.22"
dashmap = "6"
futures = "0.3"
hyper = { version = "0.14", features = ["client", "http1", "tcp"] }
hyper-proxy = "0.9"
mime_guess = "2"
once_cell = "1"
serde = { version = "1", features = ["derive"] }
sysproxy = "*"
tokio = { version = "1", features = ["full"] }
uuid = { version = "1", features = ["v4"] }

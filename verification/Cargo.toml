[package]
name = "batch_ingest"
version = "0.1.0"
edition = "2021"
publish = false

[dependencies]
anyhow = "*"
aws-config = "*"
aws-sdk-dynamodb = "*"
axum = "*"
clap = { version = "*", features = ["derive", "env"] }
dotenv = "*"
futures-util = "*"
serde = { version = "*", features = ["derive"] }
serde_dynamo = { version = "*", features = ["aws-sdk-dynamodb+1"] }
thiserror = "*"
tokio = { version = "*", features = ["macros", "rt-multi-thread", "time", "net"] }
tower = "*"
tower-http = { version = "*", features = ["cors"] }
tracing = "*"
tracing-subscriber = "*"
utoipa = "*"

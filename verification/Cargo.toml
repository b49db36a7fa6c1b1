[package]
name = "doxle_shared"
version = "0.1.0"
edition = "2021"
publish = false

[dependencies]
aws-config = "=1.12.0"
aws-sdk-apigatewaymanagement = "=1.115.0"
aws-sdk-dynamodb = "=1.131.0"
aws-types = "~1.6.0"
aws_lambda_events = "=1.2.1"
chrono = "=0.4.45"
lambda_http = "=1.3.2"
lambda_runtime = "=1.5.0"
serde = { version = "=1.0.229", features = ["derive"] }
serde_dynamo = "=4.3.0"
serde_json = "=1.0.154"
tokio = { version = "=1.54.1", features = ["macros", "rt"] }
tracing = "=0.1.44"
tracing-subscriber = "=0.3.23"

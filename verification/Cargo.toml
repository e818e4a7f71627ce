[package]
name = "juniper_aws_api_gateway_lambda"
version = "0.1.0"
edition = "2021"
publish = false

[dependencies]
aws_lambda_events = "0.3"
http = "0.2"
juniper = "=0.14.2"
lambda_runtime = "0.3"
maplit = "1"
percent-encoding = "2.1"
serde = { version = "1", features = ["derive"] }
serde_json = "1"

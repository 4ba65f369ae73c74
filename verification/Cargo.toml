[package]
name = "aws_client"
version = "0.1.0"
edition = "2021"
publish = false

[dependencies]
aws-config = "0.51"
aws-sdk-s3 = "0.21"
aws-smithy-http = "0.51"
chrono = "0.4"
clap = { version = "3.2", features = ["derive"] }
fancy-regex = "0.10"
glob = "0.3"
simple-error = "0.2"
tokio = { version = "1", features = ["fs", "io-util", "macros", "rt-multi-thread"] }

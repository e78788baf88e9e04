[package]
name = "s3_largecopy"
version = "0.1.0"
edition = "2021"
publish = false

[dependencies]
anyhow = "=1.0.104"
aws-config = "=1.12.0"
aws-sdk-pricing = "=1.118.0"
aws-sdk-s3 = "=1.152.0"
aws-smithy-runtime = { version = "=1.16.1", features = ["connector-hyper-0-14-x", "tls-rustls"] }
aws-smithy-types = "=1.9.0"
# The region type that both clients are configured with. aws-config 1.12.0
# does not compile against aws-types 1.7, so this stays on the 1.6 line.
aws-types = "=1.6.0"
clap = { version = "=4.6.7", features = ["derive"] }
hyper = { version = "=0.14.32", features = ["client", "http1", "http2", "tcp"] }
indicatif = "=0.17.11"
serde_json = "=1.0.154"
tokio = { version = "=1.54.1", features = ["full"] }

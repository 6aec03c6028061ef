[package]
name = "s3_ingest"
version = "0.1.0"
edition = "2021"
publish = false

[dependencies]
regex = "1"
serde = { version = "1", features = ["derive"] }
serde_json = "1"
rusoto_core = { version = "*", default-features = false, features = ["rustls"] }
rusoto_s3 = { version = "*", default-features = false, features = ["rustls"] }
rusoto_sqs = { version = "*", default-features = false, features = ["rustls"] }
tokio = { version = "1", features = ["time", "macros", "rt", "io-util"] }
tokio-util = { version = "*", features = ["io", "codec"] }
futures = "0.3"
async-compression = { version = "*", features = ["tokio", "gzip", "zstd"] }
bytes = "1"
snafu = "*"
thiserror = "1"
tracing = "0.1"
metrics = "*"

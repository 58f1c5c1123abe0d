[package]
name = "storify"
version = "0.1.0"
edition = "2021"
publish = false

[dependencies]
async-recursion = "1"
clap = { version = "4", features = ["derive"] }
futures = "0.3"
log = "0.4"
opendal = { version = "0.54", default-features = false, features = ["services-cos", "services-fs", "services-oss", "services-s3"] }
serde = { version = "1", features = ["derive"] }
serde_json = "1"
snafu = "0.8"
tokio = { version = "1", features = ["fs", "io-util", "macros", "rt-multi-thread"] }

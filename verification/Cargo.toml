[package]
name = "sparkle-convenience"
version = "0.1.0"
edition = "2021"
publish = false

[dependencies]
anyhow = "1"
async-trait = "0.1"
serde = { version = "1", features = ["derive"] }
thiserror = "1"
titlecase = "2"
tokio = { version = "1", features = ["rt", "time", "sync", "net", "io-util"] }
twilight-gateway = { version = "0.15", default-features = false, features = ["twilight-http"] }
twilight-http = { version = "0.15", default-features = false }
twilight-model = "0.15"
twilight-validate = "0.15"

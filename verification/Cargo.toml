[package]
name = "cert_storage"
version = "0.1.0"
edition = "2021"
publish = false

[dependencies]
bytes = "1"
futures = "0.3"
lamedh_runtime = "*"
log = "0.4"
rusoto_acm = { version = "0.46", default-features = false, features = ["rustls"] }
rusoto_core = { version = "0.46", default-features = false, features = ["rustls"] }
rusoto_s3 = { version = "0.46", default-features = false, features = ["rustls"] }
rusoto_ssm = { version = "0.46", default-features = false, features = ["rustls"] }
serde = { version = "1", features = ["derive"] }
tokio = { version = "1", features = ["macros", "rt"] }

[package]
name = "cloud_ops"
version = "0.1.0"
edition = "2021"
publish = false

[dependencies]
aws-config = { version = "*", default-features = false }
aws-sdk-memorydb = { version = "*", default-features = false }
aws-sdk-s3 = { version = "*", default-features = false }
chrono = { version = "*", default-features = false, features = ["clock"] }
colored = "*"
dotenv = "*"
fast_qr = { version = "*", features = ["image"] }
genpdf = { version = "*", features = ["images"] }
image = { version = "*", default-features = false }
tokio-stream = "*"

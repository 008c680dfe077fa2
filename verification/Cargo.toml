[package]
name = "rawzips2blobs2jsons"
version = "0.1.0"
edition = "2021"
publish = false

[dependencies]
rawzip = "=0.5.2"
base64 = "=0.23.1"
flate2 = "*"
clap = { version = "=4.6.7", features = ["derive"] }

[dev-dependencies]
serde_json = "=1.0.151"
chrono = "=0.4.45"

[package]
name = "muisnow_upload_lib"
version = "0.1.0"
edition = "2021"
publish = false

[dependencies]
openssl = "*"
reqwest = { version = "*", features = ["json", "multipart", "stream"] }
tokio = { version = "*", features = ["rt-multi-thread", "macros", "fs", "io-util"] }
tokio-util = { version = "*", features = ["codec", "io"] }
tokio-stream = "*"
async-stream = "*"
clap = { version = "*", features = ["derive"] }
indicatif = "*"
serde = { version = "*", features = ["derive"] }

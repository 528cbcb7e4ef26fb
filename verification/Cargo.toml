[package]
name = "fetch"
version = "0.1.0"
edition = "2021"
publish = false

[dependencies]
sha2 = "0.10"
md-5 = "0.10"
hex = "0.4"
log = "0.4"
clap = { version = "4", features = ["derive"] }
reqwest = { version = "0.12", features = ["stream", "multipart", "rustls-tls"] }
tokio = { version = "1", features = ["macros", "rt-multi-thread", "fs"] }
futures-util = "0.3"
tempfile = "3"

[package]
name = "buckshot"
version = "0.1.0"
edition = "2021"
publish = false

[dependencies]
serde_json = "*"
serde = { version = "*", features = ["derive"] }
tokio = { version = "*", features = ["rt-multi-thread", "macros", "net", "time", "io-util", "fs"] }
tokio-rustls = "*"
webpki-roots = "*"
chrono = "*"
reqwest = { version = "*", default-features = false, features = ["rustls-tls", "json", "multipart"] }
toml = "*"
webbrowser = "*"

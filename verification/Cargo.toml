[package]
name = "forevervm-sdk"
version = "0.1.0"
edition = "2021"
publish = false

[dependencies]
anyhow = "*"
chrono = { version = "*", features = ["serde"] }
clap = { version = "*", features = ["derive"] }
colorize = "*"
dialoguer = "*"
dirs = "*"
futures-util = "*"
regex = "*"
reqwest = { version = "*", default-features = false, features = ["json", "stream", "rustls-tls"] }
rustls = "*"
rustyline = "*"
serde = { version = "*", features = ["derive"] }
serde_json = "*"
thiserror = "*"
tokio = { version = "*", features = ["full"] }
tokio-tungstenite = { version = "*", features = ["rustls-tls-webpki-roots"] }
tracing = "*"
tungstenite = "*"
url = { version = "*", features = ["serde"] }

[package]
name = "th"
version = "0.1.0"
edition = "2021"
publish = false

[dependencies]
serde_json = "*"
serde = { version = "*", features = ["derive"] }
reqwest = { version = "*", default-features = false, features = ["json", "stream", "rustls-tls"] }
tokio = { version = "*", features = ["macros", "rt-multi-thread", "time"] }
clap = { version = "*", features = ["derive"] }
colored = "*"
futures-util = "*"
chrono = "*"

[package]
name = "astraos"
version = "0.1.0"
edition = "2021"
publish = false

[dependencies]
sha2 = "0.10"
hex = "0.4"
getrandom = "0.2"
which = "6"
serde = { version = "1", features = ["derive"] }
serde_json = "1"
toml = "0.8"
libc = "0.2"
chrono = "0.4"
tokio = { version = "1", features = ["rt", "net", "io-util", "time"] }
reqwest = { version = "0.12", default-features = false, features = ["blocking", "rustls-tls"] }

[package]
name = "backend_supervisor"
version = "0.1.0"
edition = "2021"
publish = false

[dependencies]
chrono = "=0.4.45"
log = "*"
reqwest = { version = "*", default-features = false, features = ["json", "stream", "rustls-tls"] }
semver = "*"
serde = { version = "*", features = ["derive"] }
serde_json = "*"
sha2 = "*"
tokio = { version = "*", features = ["full"] }
uuid = { version = "*", features = ["v4"] }
which = "*"
futures-util = "*"
winapi = { version = "*", features = ["wincon", "winuser"] }

[package]
name = "go_client"
version = "0.1.0"
edition = "2021"
publish = false

[dependencies]
chrono = "=0.4.45"
godot = "=0.2.4"
log = "=0.4.34"
mio = { version = "=1.2.4", features = ["net", "os-poll"] }
pretty_env_logger = "=0.5.0"
quiche = { version = "=0.28.0", default-features = false, features = ["openssl"] }
reqwest = { version = "=0.13.5", features = ["blocking", "json"] }
ring = "=0.17.14"
serde = { version = "=1.0.229", features = ["derive"] }
serde_json = "=1.0.154"
url = "=2.5.8"
uuid = { version = "=1.29.0", features = ["v4"] }

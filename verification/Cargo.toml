[package]
name = "pyreportal"
version = "0.1.0"
edition = "2021"
publish = false

[dependencies]
chrono = "=0.4.45"
serde = { version = "=1.0.229", features = ["derive"] }
serde_json = "=1.0.151"
tokio = { version = "=1.53.2", features = ["rt-multi-thread", "sync", "time", "macros"] }
reqwest = { version = "=0.13.5", default-features = false, features = ["json"] }
rand = "=0.10.3"
dirs = "=7.0.0"
scopeguard = "=1.2.0"
mfrc522 = { version = "=0.8.0", features = ["eh02"] }
linux-embedded-hal = "=0.3.2"
rppal = "=0.22.1"

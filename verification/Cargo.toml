[package]
name = "cokacdir"
version = "0.1.0"
edition = "2021"
publish = false

[dependencies]
chrono = "=0.4.45"
hex = "=0.4.3"
rand = "=0.8.8"
regex = "=1.13.1"
serde_json = "=1.0.154"
sha2 = "=0.10.9"
dirs = "5"
libc = "0.2"
serde = { version = "1", features = ["derive"] }
tokio = { version = "1", features = ["rt-multi-thread", "macros", "time", "sync"] }
teloxide = { version = "0.13", default-features = false, features = ["rustls", "ctrlc_handler"] }
reqwest = { version = "0.11", default-features = false, features = ["rustls-tls"] }
takecell = "=0.1.1"

[package]
name = "spaces_search"
version = "0.1.0"
edition = "2021"
publish = false

[dependencies]
chrono = "=0.4.45"
clap = "=4.6.7"
log = "=0.4.34"
log4rs = "=1.4.0"
reqwest = { version = "=0.13.5", default-features = false, features = ["query"] }
serde_json = "=1.0.151"
serde_yaml = "=0.9.34"
tokio = { version = "=1.53.2", features = ["macros", "rt-multi-thread"] }

[package]
name = "compose_backup"
version = "0.1.0"
edition = "2021"
publish = false

[dependencies]
bollard = "*"
chrono = "0.4"
clap = "2"
futures = "0.3"
log = "0.4"
serde = { version = "1", features = ["derive"] }
serde_derive = "1"
stderrlog = "0.5"
tokio = { version = "1", features = ["macros", "rt-multi-thread"] }
toml = "0.5"

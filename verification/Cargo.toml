[package]
name = "hydrocube"
version = "0.1.0"
edition = "2021"
publish = false

[dependencies]
actix-files = "0.6"
actix-web = { version = "4", default-features = false, features = ["macros", "rustls-0_23"] }
anyhow = "1"
arrow = { version = "=60.0.0", default-features = false, features = ["ipc"] }
clap = { version = "4", features = ["derive"] }
duckdb = { version = "=1.20000.0", default-features = false }
mime_guess = "=2.0.5"
notify = "8"
r2d2 = "0.8"
rustls = { version = "0.23", default-features = false, features = ["ring", "std", "logging", "tls12"] }
rustls-pemfile = "2"
serde = { version = "1", features = ["derive"] }
serde_json = "=1.0.154"
serde_yaml = "0.9"
tokio = { version = "1", features = ["rt", "rt-multi-thread", "sync", "macros"] }

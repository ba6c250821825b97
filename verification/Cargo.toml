[package]
name = "openzt_instance_manager"
version = "0.1.0"
edition = "2021"
publish = false

[dependencies]
anyhow = "*"
axum = "*"
base64 = "*"
bollard = "*"
chrono = "*"
clap = { version = "*", features = ["derive"] }
console = "*"
directories = "*"
futures-util = "*"
miette = "*"
reqwest = { version = "*", default-features = false, features = ["json"] }
serde = { version = "*", features = ["derive"] }
serde_json = "*"
tabled = "*"
tokio = { version = "*", features = ["rt-multi-thread", "macros", "net", "sync", "io-util", "time"] }
toml = "*"
tower-http = { version = "*", features = ["cors"] }
tracing = "*"
tracing-subscriber = { version = "*", features = ["env-filter"] }
uuid = { version = "*", features = ["v4"] }

[package]
name = "saasy_orchestrator"
version = "0.1.0"
edition = "2021"
publish = false

[dependencies]
uuid = { version = "1", features = ["v4"] }
tokio = { version = "1", features = ["full"] }
tokio-util = "0.7"
tokio-stream = "0.1"
tracing = "0.1"
tracing-subscriber = { version = "0.3", features = ["env-filter"] }
reqwest = { version = "0.12", default-features = false, features = ["json", "stream", "rustls-tls"] }
serde = { version = "1", features = ["derive"] }
serde_json = "1"
eventsource-stream = "0.2"
async-trait = "0.1"
thiserror = "2"
actix-web = { version = "4", default-features = false, features = ["macros"] }
tonic = "0.12"
tower = "0.5"
hyper-util = "0.1"
dotenvy = "0.15"
config = { version = "0.14", default-features = false, features = ["toml"] }
aws-config = "1"
aws-sdk-bedrockruntime = "1"
google-cloud-auth = "*"
http = "1"

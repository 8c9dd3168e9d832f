[package]
name = "guildbot"
version = "0.1.0"
edition = "2021"
publish = false

[dependencies]
deadpool = "=0.12.3"
diesel = { version = "=2.2.12", features = ["postgres"] }
diesel-async = { version = "=0.5.2", features = ["postgres", "deadpool"] }
diesel_migrations = { version = "=2.2.0", features = ["postgres"] }
futures-util = { version = "=0.3.34", features = ["async-await-macro"] }
reqwest = { version = "=0.12.28", default-features = false, features = ["json", "rustls-tls"] }
serde = { version = "=1.0.229", features = ["derive"] }
serde_json = "=1.0.154"
thiserror = "=2.0.21"
tokio = { version = "=1.54.1", features = ["full"] }
tracing = "=0.1.44"
tracing-subscriber = "=0.3.23"
twilight-cache-inmemory = "=0.16.0"
twilight-gateway = "=0.16.0"
twilight-http = "=0.16.0"
twilight-model = "=0.16.0"
twilight-util = { version = "=0.16.0", features = ["builder"] }
twilight-validate = "=0.16.0"

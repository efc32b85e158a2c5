[package]
name = "lotus"
version = "0.1.0"
edition = "2021"
publish = false

[dependencies]
serde_json = "1"
tar = "*"
handlebars = "*"
anyhow = "1"
axum = "0.6"
bollard = "*"
clap = { version = "4", features = ["derive", "env"] }
directories = "*"
futures-util = "0.3"
reqwest = { version = "*", default-features = false, features = ["json"] }
tokio = { version = "1", features = ["full"] }
tracing = "0.1"
tracing-subscriber = { version = "0.3", features = ["env-filter"] }

[dev-dependencies]
assert-json-diff = "*"
tempfile = "3"

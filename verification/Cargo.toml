[package]
name = "sailor"
version = "0.1.0"
edition = "2021"
publish = false

[dependencies]
async-graphql = "*"
bigdecimal = { version = "*", features = ["serde"] }
chrono = "*"
chrono-humanize = "*"
chrono-tz = "*"
json_dotpath = "*"
log = "*"
reqwest = { version = "*", default-features = false, features = ["json", "cookies", "rustls-tls"] }
serde = { version = "*", features = ["derive"] }
serde_json = "*"
tokio = { version = "*", features = ["time", "rt"] }
tokio-compat-02 = "*"
tokio-stream = "*"

[package]
name = "oauth_relay"
version = "0.1.0"
edition = "2021"
publish = false

[dependencies]
dotenv = "=0.15.0"
handlebars = "=5.1.2"
openssl = "=0.10.81"
rand = "=0.3.23"
reqwest = { version = "=0.12.28", features = ["blocking", "json"] }
rocket = { version = "=0.5.2", features = ["json"] }
rustc-serialize = "=0.3.25"
serde = { version = "=1.0.229", features = ["derive"] }
serde_json = { version = "=1.0.154", features = ["raw_value"] }

[package]
name = "dns-01-web"
version = "0.1.0"
edition = "2021"
publish = false

[dependencies]
rust-crypto = "=0.2.36"
rand = "=0.4.6"
chrono = "=0.4.45"
serde = { version = "=1.0.229", features = ["derive"] }
serde_derive = "=1.0.229"
serde_json = "=1.0.154"
mysql = { version = "=18.2.0", default-features = false }
rocket = { version = "0.5.2", features = ["secrets"] }
rocket_dyn_templates = { version = "0.2", features = ["handlebars"] }

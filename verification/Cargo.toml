[package]
name = "tag_autocomplete"
version = "0.1.0"
edition = "2021"
publish = false

[dependencies]
moka = { version = "=0.12.16", features = ["sync"] }
unicode-normalization = "=0.1.25"
actix-web = "=4.15.0"
deadpool-postgres = { version = "=0.14.2", features = ["serde"] }
tokio-postgres = "=0.7.18"
serde = { version = "=1.0.229", features = ["derive"] }
config = "=0.15.27"
derive_more = { version = "=2.1.1", features = ["display", "error", "from"] }
log = "=0.4.34"
env_logger = "=0.11.11"
tokio-pg-mapper = "=0.2.0"
tokio-pg-mapper-derive = "=0.2.0"

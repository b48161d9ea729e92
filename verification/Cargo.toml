[package]
name = "ssu_mgmt"
version = "0.1.0"
edition = "2021"
publish = false

[dependencies]
axum = "0.7"
axum-extra = { version = "0.9", features = ["cookie"] }
chrono = "=0.4.45"
config = "0.14"
crossbeam = "=0.8.5"
dashmap = "=6.2.1"
diesel = { version = "2", features = ["postgres", "chrono", "serde_json"] }
diesel_migrations = "2"
jwt-authorizer = "0.14"
log = "=0.4.34"
rdkafka = "0.36"
regex = "1"
serde = { version = "=1.0.229", features = ["derive"] }
serde_json = "=1.0.154"
thiserror = "=1.0.69"
tokio = { version = "1", features = ["full"] }
tokio-util = "0.7"
tower-layer = "0.3"

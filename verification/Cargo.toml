[package]
name = "covid-unified-gateway"
version = "0.1.0"
edition = "2021"
publish = false

[dependencies]
curl = "0.4"
dotenv = "0.15"
futures = "0.3"
serde = { version = "1.0", features = ["derive"] }
serde_json = { version = "1.0", features = ["raw_value"] }

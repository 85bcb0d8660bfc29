[package]
name = "pi_agent"
version = "0.1.0"
edition = "2021"
publish = false

[dependencies]
asupersync = { version = "0.2", default-features = false }
async-trait = "=0.1.92"
chrono = "=0.4.45"
futures = "=0.3.34"
serde = { version = "=1.0.229", features = ["derive"] }
serde_json = "=1.0.154"
sha2 = "=0.10.9"
tracing = "=0.1.44"

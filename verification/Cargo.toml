[package]
name = "databend_base"
version = "0.1.0"
edition = "2021"
publish = false

[dependencies]
async-trait = "=0.1.92"
ctrlc = "=3.5.2"
futures = "=0.3.34"
jwt-simple = { version = "=0.12.17", default-features = false, features = ["pure-rust"] }
log = "=0.4.34"
pin-project-lite = "=0.2.17"
serde = { version = "=1.0.229", features = ["derive"] }
tokio = { version = "=1.54.1", features = ["rt", "rt-multi-thread", "sync", "time"] }
uuid = { version = "=1.29.0", features = ["v4"] }

[package]
name = "roku_ecp"
version = "0.1.0"
edition = "2021"
publish = false

[dependencies]
futures = "0.3"
reqwest = { version = "0.11", default-features = false }
serde = { version = "1", features = ["derive"] }
serde-xml-rs = "0.4"
ssdp-client = "1"
thiserror = "1"
url = "2"

[package]
name = "entity_schema"
version = "0.1.0"
edition = "2021"
publish = false

[dependencies]
anyhow = "1"
ethers = { version = "2", default-features = false }
graphql-parser = "0.4"
inquire = "0.7"
serde = { version = "1", features = ["derive"] }
serde_json = "1"
serde_yaml = "0.9"

[package]
name = "exograph_core"
version = "0.1.0"
edition = "2021"
publish = false

[dependencies]
rand = "0.9"
serde_json = "1"
indexmap = "2"
tokio-postgres = "0.7"
deadpool-postgres = "*"
tokio = { version = "1", features = ["time", "rt"] }
async-graphql-parser = "*"
async-graphql-value = "*"

[package]
name = "pit_indexer"
version = "0.1.0"
edition = "2021"
publish = false

[dependencies]
regex = "1"
rive-http = "*"
rive-gateway = "*"
rive-cache-inmemory = "*"
rive-models = "*"
tokio = { version = "1", features = ["macros", "rt-multi-thread"] }
futures = "0.3"

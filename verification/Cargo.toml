[package]
name = "userop_encoder"
version = "0.1.0"
edition = "2021"
publish = false

[dependencies]
alloy = { version = "=0.8.3", default-features = false, features = ["sol-types"] }
alloy-provider = { version = "=0.8.3", default-features = false, features = ["reqwest"] }
async-trait = "=0.1.92"
clap = { version = "=4.6.7", features = ["derive"] }
eyre = "=0.6.14"
hex = "=0.4.3"
serde = { version = "=1.0.229", features = ["derive"] }
serde_json = "=1.0.154"
thiserror = "=2.0.21"
tokio = { version = "=1.54.1", features = ["rt-multi-thread", "macros"] }
toml = "0.8"
url = "=2.5.8"

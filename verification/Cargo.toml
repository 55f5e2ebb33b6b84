[package]
name = "mod_providers"
version = "0.1.0"
edition = "2021"
publish = false

[dependencies]
tokio = { version = "*", default-features = false, features = ["sync"] }
reqwest = { version = "*", default-features = false }
modio = { version = "*", default-features = false }
thiserror = "*"
async-trait = "*"

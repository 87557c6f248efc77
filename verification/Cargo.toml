[package]
name = "github_scopes_rs"
version = "0.1.0"
edition = "2021"
publish = false

[dependencies]
reqwest = { version = "*", default-features = false, features = ["blocking"] }

[dev-dependencies]
mockito = "*"

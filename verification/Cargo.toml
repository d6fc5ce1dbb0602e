[package]
name = "blindbet"
version = "0.1.0"
edition = "2021"
publish = false

[dependencies]
anchor-lang = { version = "=0.31.2", default-features = false }
arcium-anchor = { version = "=0.2.0", default-features = false }
arcium-client = { version = "=0.2.0", default-features = false }
arcis-imports = { version = "=0.2.0", default-features = false }

[package]
name = "kunai"
version = "0.1.0"
edition = "2021"
publish = false

[dependencies]
gene = "*"
hex = "*"
lru-st = "*"
md-5 = "*"
serde = { version = "*", features = ["derive"] }
sha1 = "*"
sha2 = "*"
thiserror = "*"

[package]
name = "reffetch"
version = "0.1.0"
edition = "2021"
publish = false

[dependencies]
anyhow = "*"
bam = "*"
futures = "*"
indicatif = "*"
md-5 = "*"
reqwest = { version = "*", default-features = false }
tokio = { version = "*", features = ["full"] }

[package]
name = "gw2_dungeons"
version = "0.1.0"
edition = "2021"
publish = false

[dependencies]
reqwest = { version = "*", default-features = false, features = ["blocking", "json"] }
serde = "1"
serde_derive = "1"

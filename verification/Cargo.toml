[package]
name = "feedcore"
version = "0.1.0"
edition = "2021"
publish = false

[dependencies]
feed-rs = "*"
chrono = "*"
reqwest = { version = "*", default-features = false, features = ["blocking"] }
rayon = "*"
dirs = "*"

[dev-dependencies]
hex = "*"

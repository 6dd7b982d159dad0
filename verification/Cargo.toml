[package]
name = "decor"
version = "0.1.0"
edition = "2021"
publish = false

[dependencies]
java-rand = "*"
serde = { version = "*", features = ["derive"] }

[package]
name = "falling_tetromino_engine"
version = "0.1.0"
edition = "2021"
publish = false

[dependencies]
rand = "*"
rand_chacha = "*"
either = "*"
serde = { version = "*", features = ["derive"] }

[package]
name = "blackjack_core"
version = "0.1.0"
edition = "2021"
publish = false

[dependencies]
rand = "0.9"
rand_chacha = "0.9"
uuid = "1"
serde = { version = "1", features = ["derive"] }
thiserror = "2"

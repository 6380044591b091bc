[package]
name = "truerepublic"
version = "0.1.0"
edition = "2021"
publish = false

[dependencies]
cosmwasm-std = "*"
serde = { version = "*", features = ["derive"] }
schemars = "*"
thiserror = "*"

[package]
name = "basable_query"
version = "0.1.0"
edition = "2021"
publish = false

[dependencies]
mysql = "*"
uuid = { version = "*", features = ["v4"] }
serde = { version = "*", features = ["derive"] }

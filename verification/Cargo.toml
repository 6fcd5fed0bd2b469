[package]
name = "autocommit"
version = "0.1.0"
edition = "2021"
publish = false

[dependencies]
dialoguer = "*"
serde = { version = "*", features = ["derive"] }
surf = { version = "*", default-features = false, features = ["h1-client-rustls"] }
tokio = { version = "*", features = ["macros", "rt"] }

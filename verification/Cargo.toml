[package]
name = "dynalock"
version = "0.1.0"
edition = "2021"
publish = false

[dependencies]
uuid = { version = "*", features = ["v4"] }
rusoto_core = { version = "0.42", default-features = false, features = ["rustls"] }
rusoto_dynamodb = { version = "0.42", default-features = false, features = ["rustls"] }

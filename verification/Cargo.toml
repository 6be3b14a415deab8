[package]
name = "vote_server"
version = "0.1.0"
edition = "2021"
publish = false

[dependencies]
chrono = "0.4"
uuid = { version = "1", features = ["v4", "serde"] }
diesel = { version = "2", features = ["postgres", "uuid", "chrono"] }
rocket = { version = "0.5", features = ["json", "uuid"] }

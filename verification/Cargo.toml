[package]
name = "topic_chat"
version = "0.1.0"
edition = "2021"
publish = false

[dependencies]
chrono = { version = "0.4", features = ["serde"] }
crossbeam = "0.8"
diesel = { version = "2", features = ["postgres", "uuid", "chrono"] }
dotenvy = "0.15"
rand = "0.8"
rocket = { version = "0.5", features = ["json"] }
rocket_ws = "0.1"
serde = { version = "1", features = ["derive"] }
serde_json = "1"
uuid = { version = "1", features = ["v4", "serde"] }

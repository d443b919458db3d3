[package]
name = "room_booking"
version = "0.1.0"
edition = "2021"
publish = false

[dependencies]
argon2 = { version = "0.5", features = ["std"] }
chrono = "0.4"
jsonwebtoken = "9"
serde_json = { version = "1", features = ["preserve_order"] }
serde = { version = "1", features = ["derive"] }
rocket = { version = "0.5", features = ["json"] }
rocket_http = "0.5"
rocket_okapi = { version = "0.8", features = ["swagger"] }
rocket_cors = "0.6"
diesel = { version = "2", features = ["sqlite"] }
dotenvy = "0.15"
log = "0.4"
simplelog = "0.12"

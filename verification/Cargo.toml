[package]
name = "user_service"
version = "0.1.0"
edition = "2021"
publish = false

[dependencies]
moka = { version = "0.12", features = ["sync"] }
md-5 = "0.10"
hex = "0.4"
rand = "0.8"
chrono = "0.4"
jsonwebtoken = "9"
serde = { version = "1", features = ["derive"] }
serde_json = "1"
serde_yaml = "0.9"
toml = "0.8"
handlebars = "5"
lettre = { version = "0.11", default-features = false, features = ["builder", "smtp-transport", "rustls-tls"] }
actix-web = "4"
actix-cors = "0.7"
actix-http = "3"
futures-util = "0.3"
diesel = { version = "2", features = ["sqlite", "r2d2"] }
rusqlite = { version = "0.32", features = ["bundled"] }
tracing = "0.1"
tracing-subscriber = { version = "0.3", features = ["chrono"] }
tracing-appender = "0.2"
color-eyre = "0.6"
scopeguard = "1"
paste = "1"

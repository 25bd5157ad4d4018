[package]
name = "catalog"
version = "0.1.0"
edition = "2021"
publish = false

[dependencies]
actix = "0.10"
actix-cors = "0.5"
actix-files = "0.5"
actix-multipart = "0.3"
actix-redis = "0.9"
actix-session = "0.4"
actix-web = "3"
chrono = { version = "0.4", features = ["serde"] }
diesel = { version = "1.4", features = ["postgres", "chrono"] }
dotenv = "0.15"
env_logger = "0.8"
futures = "0.3"
log = "0.4"
sailfish = "*"
serde = { version = "1", features = ["derive"] }
tera = "1"

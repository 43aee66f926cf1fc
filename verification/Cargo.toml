[package]
name = "mabar_backend"
version = "0.1.0"
edition = "2021"
publish = false

[dependencies]
actix-cors = "0.6"
actix-web = "4"
actix-web-httpauth = "0.8"
anyhow = "1"
argon2 = "0.5"
bcrypt = "0.15"
bson = "2"
chrono = "0.4"
dotenv = "0.15"
env_logger = "0.10"
futures-util = "0.3"
jsonwebtoken = "9"
lazy_static = "1"
log = "0.4"
mongodb = "2"
oauth2 = "4"
rand = "0.8"
regex = "1"
reqwest = { version = "0.11", default-features = false, features = ["json"] }
serde = { version = "1", features = ["derive"] }
serde_json = "1"
urlencoding = "2"
zxcvbn = "2"

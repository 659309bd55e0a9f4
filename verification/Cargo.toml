[package]
name = "webp_service"
version = "0.1.0"
edition = "2021"
publish = false

[dependencies]
actix-cors = "*"
actix-multipart = "*"
actix-web = "*"
dotenv = "*"
env_logger = "*"
futures = "*"
image = { version = "*", default-features = false, features = ["png", "jpeg", "bmp", "gif", "webp"] }
log = "*"
mime_guess = "*"
serde = { version = "*", features = ["derive"] }
serde_json = "*"
thiserror = "*"
webp = "*"

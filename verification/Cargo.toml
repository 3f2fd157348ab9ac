[package]
name = "urbit_chatbot"
version = "0.1.0"
edition = "2021"
publish = false

[dependencies]
serde_json = { version = "=1.0.151", features = ["preserve_order"] }
json = "=0.12.4"
chrono = "=0.4.45"
dotenv = "=0.15.0"
failure = "=0.1.8"
headless_chrome = "=0.9.0"
rust-s3 = { version = "=0.38.0", features = ["blocking"] }
time = "=0.3.55"
urbit-http-api = "=0.7.3"

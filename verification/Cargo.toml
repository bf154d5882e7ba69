[package]
name = "chess_engine"
version = "0.1.0"
edition = "2021"
publish = false

[dependencies]
actix = "0.13"
actix-broker = "0.4"
actix-cors = "0.6"
actix-http = "3"
actix-rt = "2"
actix-web = "4"
actix-web-actors = "4"
dotenv = "0.15"
env_logger = "0.10"
log = "0.4"
rand = "0.8"
serde = { version = "1", features = ["derive"] }
serde_json = "1"
serde-wasm-bindgen = "0.5"
thiserror = "1"
uuid = { version = "1", features = ["v4", "serde"] }
wasm-bindgen = "0.2"

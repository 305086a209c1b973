[package]
name = "page_responder"
version = "0.1.0"
edition = "2021"
publish = false

[dependencies]
tera = "=1.20.1"
actix-web = "=4.15.0"
actix-rt = "=2.15.0"
actix-session = { version = "=0.11.0", features = ["cookie-session"] }
actix-identity = "=0.9.0"
env_logger = "=0.11.11"
log = "=0.4.34"
console_log = "=1.1.0"
wasm-bindgen = "=0.2.129"

[package]
name = "jugar_web"
version = "0.1.0"
edition = "2021"
publish = false

[dependencies]
trueno = { version = "*", default-features = false }
serde = { version = "1", features = ["derive"] }
serde_json = "1"
thiserror = "2"
wasm-bindgen = "0.2"
glam = { version = "*", features = ["serde"] }
fastrand = "2"

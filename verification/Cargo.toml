[package]
name = "tauri_elm"
version = "0.1.0"
edition = "2021"
publish = false

[dependencies]
directories = "*"
reqwest = { version = "*", default-features = false, features = ["blocking"] }
serde = { version = "*", features = ["derive"] }

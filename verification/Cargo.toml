[package]
name = "classmate"
version = "0.1.0"
edition = "2021"
publish = false

[dependencies]
rusqlite = { version = "*", features = ["bundled"] }
bcrypt = "*"
actix-web = "*"
actix-cors = "*"
serde = { version = "*", features = ["derive"] }

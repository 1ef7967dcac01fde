[package]
name = "unlock_mox_si_api"
version = "0.1.0"
edition = "2021"
publish = false

[dependencies]
hmac = "*"
sha2 = "*"
base64 = "*"
chrono = "*"
rand = "*"
serde = { version = "*", features = ["derive"] }
serde_json = "*"
envy = "*"
actix-web = "*"
reqwest = { version = "*", default-features = false, features = ["json"] }

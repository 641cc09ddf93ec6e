[package]
name = "sceideal_auth"
version = "0.1.0"
edition = "2021"
publish = false

[dependencies]
rand = "0.8"
bcrypt = "0.15"
openidconnect = { version = "3", default-features = false, features = ["ureq"] }
oauth2 = { version = "4", default-features = false, features = ["ureq"] }
serde = { version = "1", features = ["derive"] }
serde_urlencoded = "0.7"
toml = "0.8"

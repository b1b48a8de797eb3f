[package]
name = "backend_utils"
version = "0.1.0"
edition = "2021"
publish = false

[dependencies]
argon2 = "*"
mongodb = "*"
bson = "*"
nanoid = "*"
actix-web = "*"
serde = "*"

[dev-dependencies]
regex = "*"

[package]
name = "infrastructure"
version = "0.1.0"
edition = "2021"
publish = false

[dependencies]
actix-cors = "*"
actix-web = { version = "4", default-features = false }
actix-web-extras = "*"
actix-web-httpauth = "*"
actix-web-prom = "*"

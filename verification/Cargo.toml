[package]
name = "typed_links"
version = "0.1.0"
edition = "2021"
publish = false

[dependencies]
hdk = "*"
serde = { version = "*", features = ["derive"] }

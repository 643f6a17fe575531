[package]
name = "coffee_loyalty"
version = "0.1.0"
edition = "2021"
publish = false

[dependencies]
rand = "0.7"
serde = { version = "1", features = ["derive"] }
serde_json = "1"
async-std = "1"
async-trait = "0.1"
log = "0.4"
simple_logger = "*"
actix = "0.13"
actix-rt = "2"

[package]
name = "tardis"
version = "0.1.0"
edition = "2021"
publish = false

[dependencies]
chrono = "0.4"
reqwest = { version = "*", default-features = false, features = ["blocking"] }
simple-error = "*"

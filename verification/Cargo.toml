[package]
name = "smtp_client"
version = "0.1.0"
edition = "2021"
publish = false

[dependencies]
lettre = { version = "=0.11.23", default-features = false, features = ["builder", "hostname", "native-tls", "smtp-transport"] }
pgrx = { version = "=0.12.9", features = ["pg16"] }

[package]
name = "gladiator"
version = "0.1.0"
edition = "2021"
publish = false

[dependencies]
rand = "=0.8.8"
random_name_generator = "*"
rusqlite = { version = "=0.31.0", features = ["bundled"] }
handlebars = "=4.5.0"
serenity = { version = "=0.11.7", default-features = false, features = ["client", "gateway", "rustls_backend", "model", "framework", "standard_framework"] }
tokio = { version = "1", features = ["macros", "rt-multi-thread"] }

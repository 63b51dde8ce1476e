[package]
name = "ddg_search"
version = "0.1.0"
edition = "2021"
publish = false

[dependencies]
chrono = { version = "*", default-features = false, features = ["std"] }
scraper = "*"
reqwest = { version = "*", default-features = false, features = ["rustls-tls"] }
actix-web = "*"
serde = { version = "*", features = ["derive"] }
utoipa = { version = "*", features = ["actix_extras"] }

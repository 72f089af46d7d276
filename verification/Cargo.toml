[package]
name = "clipboard"
version = "0.1.0"
edition = "2021"
publish = false

[dependencies]
actix-cors = "=0.2.0"
actix-files = "=0.2.2"
actix-multipart = "=0.2.0"
actix-rt = "=1.1.1"
actix-service = "=1.0.6"
actix-web = "=2.0.0"
bcrypt = "=0.19.3"
bson = "=0.12.3"
chrono = "=0.4.19"
futures = "=0.3.34"
mongodb = "=0.3.10"
nanoid = "=0.2.0"
openssl = "=0.10.82"
serde = "=1.0.229"
serde_derive = "=1.0.229"
serde_json = "=1.0.154"
slog = "=2.8.2"
slog-async = "=2.8.0"
slog-scope = "=4.4.1"
slog-term = "=2.6.0"

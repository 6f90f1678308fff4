[package]
name = "ticket_entries"
version = "0.1.0"
edition = "2021"
publish = false

[dependencies]
actix-web = "*"
mysql_async = "*"
serde = { version = "*", features = ["derive"] }
dotenv = "*"

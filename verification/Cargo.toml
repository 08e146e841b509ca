[package]
name = "requery"
version = "0.1.0"
edition = "2021"
publish = false

[dependencies]
re_arrow2 = "0.17"
re_chunk = "0.18"
re_entity_db = "0.18"
re_log_encoding = { version = "0.18", features = ["decoder"] }
re_log_types = "0.18"
log = "0.4"
env_logger = "0.11"
serde = { version = "1", features = ["derive"] }

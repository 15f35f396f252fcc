[package]
name = "clockking"
version = "0.1.0"
edition = "2021"
publish = false

[dependencies]
chrono = { version = "=0.4.45", features = ["serde"] }
cursive = "=0.21.1"
cursive_table_view = "=0.15.0"
cursive_calendar_view = "=0.9.0"
cursive-extras = "=0.12.1"
scheduled-thread-pool = "=0.2.7"
serde = { version = "=1.0.229", features = ["derive"] }
serde_json = "=1.0.154"

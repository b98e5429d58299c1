[package]
name = "hhireg"
version = "0.1.0"
edition = "2021"
publish = false

[dependencies]
rusqlite = { version = "*", features = ["bundled"] }
chrono = "0.4"
directories-next = "2"

[dev-dependencies]
csv = "1"

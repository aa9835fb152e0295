[package]
name = "poeng_server"
version = "0.1.0"
edition = "2021"
publish = false

[dependencies]
uuid = { version = "0.8", features = ["v4"] }
specs = { version = "0.15", features = ["serde"] }
specs-derive = "0.4"
serde = { version = "1", features = ["derive"] }
rand = "0.7"
ws = "0.9"
lazy_static = "1"
rltk = "0.6"

[package]
name = "skipper"
version = "0.1.0"
edition = "2021"
publish = false

[dependencies]
clap = "2.33"
dotenv = "0.15"
envy = "0.4"
lazy_static = "1.4"
log = "0.4"
serde = { version = "1.0", features = ["derive"] }

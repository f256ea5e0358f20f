[package]
name = "linkbuilder"
version = "0.1.0"
edition = "2021"
publish = false

[dependencies]
byte-unit = "4"
clap = { version = "4", features = ["derive"] }
csv = "1"
data-encoding = "2"
dotenv = "0.15"
indicatif = "0.17"
reqwest = { version = "0.11", default-features = false, features = ["json"] }
serde = { version = "1", features = ["derive"] }
serde_json = "1"
tokio = { version = "1", features = ["macros", "rt-multi-thread"] }
tracing = "0.1"
tracing-subscriber = "0.3"

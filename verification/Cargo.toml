[package]
name = "ark_supervisor"
version = "0.1.0"
edition = "2021"
publish = false

[dependencies]
actix = "0.13"
actix-web = { version = "4", default-features = false, features = ["macros"] }
dashmap = "5"
hocon = { version = "0.9", default-features = false, features = ["serde-support"] }
log = "0.4"
pretty_env_logger = "0.5"
serde = { version = "1", features = ["derive"] }
subprocess = "0.2"

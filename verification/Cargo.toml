[package]
name = "camper"
version = "0.1.0"
edition = "2021"
publish = false

[dependencies]
anyhow = "*"
chrono = "*"
clap = { version = "*", features = ["derive"] }
comfy-table = "*"
dialoguer = "*"
directories = "*"
env_logger = "*"
indicatif = "*"
log = "*"
reqwest = { version = "*", default-features = false, features = ["json"] }
serde = { version = "*", features = ["derive"] }
strum = "*"
strum_macros = "*"
tokio = { version = "*", features = ["macros", "rt-multi-thread"] }
toml = "*"

[package]
name = "startrails"
version = "0.1.0"
edition = "2021"
publish = false

[dependencies]
anyhow = "1"
base64 = "*"
chrono = "0.4"
clap = { version = "4", features = ["derive"] }
console = "*"
image = "*"
indicatif = "*"
itertools = "*"
log = "0.4"
num = "0.4"
num_cpus = "1"
pretty_env_logger = "*"
rawler = "*"
rayon = "1"
serde = { version = "1", features = ["derive"] }
serde_json = "1"
uuid = { version = "1", features = ["v4"] }
version = "*"

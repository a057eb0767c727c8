[package]
name = "vmreq"
version = "0.1.0"
edition = "2021"
publish = false

[dependencies]
lettre = { version = "*", default-features = false, features = ["smtp-transport", "builder", "rustls-tls"] }
uuid = { version = "*", features = ["v4"] }
rocket = "*"
rocket_dyn_templates = { version = "*", features = ["handlebars"] }
reqwest = { version = "*", default-features = false, features = ["rustls-tls"] }
serde = { version = "*", features = ["derive"] }
serde_json = "*"
serde-env = "*"
dotenv = "*"
env_logger = "*"
log = "*"
anyhow = "*"

[package]
name = "srfax_sync"
version = "0.1.0"
edition = "2021"
publish = false

[dependencies]
base64 = "=0.13.1"
reqwest = { version = "*", default-features = false, features = ["blocking", "form", "json"] }
serde = { version = "*", features = ["derive"] }
serde_json = "*"
chrono = "*"
clap = "*"
log = "*"
flexi_logger = "*"
lettre = { version = "*", default-features = false, features = ["smtp-transport", "builder"] }

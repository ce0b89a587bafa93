[package]
name = "tsdm_bot"
version = "0.1.0"
edition = "2021"
publish = false

[dependencies]
serde_json = "=1.0.151"
telegraph-rs = { version = "=0.7.0", default-features = false, features = ["html"] }
html_parser = "=0.7.0"
reqwest = { version = "=0.13.5", default-features = false }
teloxide = { version = "=0.17.0", default-features = false, features = ["macros", "rustls"] }
tokio = { version = "*", features = ["macros", "rt-multi-thread"] }
serde = { version = "*", features = ["derive"] }
log = "*"
pretty_env_logger = "*"
takecell = ">=0.1, <0.1.2"

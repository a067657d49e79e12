[package]
name = "godo_menu"
version = "0.1.0"
edition = "2021"
publish = false

[dependencies]
teloxide = { version = "=0.17.0", features = ["macros"] }
tokio = { version = "=1.53.2", features = ["macros", "rt-multi-thread"] }
dptree = "=0.5.1"
log = "=0.4.34"
pretty_env_logger = "=0.5.0"
takecell = "=0.1.1"

[package]
name = "pdoc"
version = "0.1.0"
edition = "2021"
publish = false

[dependencies]
anyhow = "1"
askama = "0.12"
askama_escape = "0.10"
clap = { version = "4", features = ["derive"] }
directories = "5"
inquire = { version = "0.6", features = ["date", "editor"] }
rust_decimal = "1"
serde = { version = "1", features = ["derive"] }
serde_yaml = "0.9"
shellexpand = "3"
texrender = "0.3"
thiserror = "1"
time = { version = "0.3", features = ["parsing", "formatting", "macros"] }
toml = "0.8"

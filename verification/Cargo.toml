[package]
name = "project_init"
version = "0.1.0"
edition = "2021"
publish = false

[dependencies]
case = "1"
chrono = "0.4"
clap = { version = "3", features = ["derive"] }
dirs = "4"
git2 = { version = "0.14", default-features = false }
heck = "0.4"
os_str_bytes = "6"
reqwest = { version = "0.11", default-features = false, features = ["json", "rustls-tls"] }
rustache = "0.1"
serde = { version = "1", features = ["derive"] }
serde_json = "1"
tempdir = "0.3"
text_io = "0.1"
tokio = { version = "1", features = ["macros", "rt-multi-thread"] }
toml = "0.5"
tracing = "0.1"
tracing-subscriber = "0.3"
url = "2"

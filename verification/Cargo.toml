[package]
name = "klappstuhl_me"
version = "0.1.0"
edition = "2021"
publish = false

[dependencies]
quick_cache = { version = "=0.7.0", default-features = false }
brotli = "=9.0.0"
nanoid = "=0.5.0"
time = "=0.3.55"
base64 = "=0.23.1"
tree_magic = "=0.2.3"
sanitise-file-name = "=1.0.0"
serde = { version = "=1.0.229", features = ["derive"] }
serde_json = "=1.0.151"
tokio = { version = "=1.53.2", features = ["rt", "rt-multi-thread", "macros", "sync", "time"] }

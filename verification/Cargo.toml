[package]
name = "rocksdb_cli"
version = "0.1.0"
edition = "2021"
publish = false

[dependencies]
anyhow = "=1.0.104"
clap = { version = "=4.6.7", features = ["derive"] }
colored = "=3.1.1"
comfy-table = "=8.0.1"
dirs = "=7.0.0"
hex = "=0.4.3"
log = "=0.4.34"
rocksdb = "=0.24.0"
rustyline = { version = "=19.0.0", features = ["derive"] }
serde_json = "=1.0.154"
shell-words = "=1.1.1"
unescaper = "=0.2.0"

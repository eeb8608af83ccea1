[package]
name = "flint_build"
version = "0.1.0"
edition = "2021"
publish = false

[dependencies]
anyhow = "=1.0.104"
clap = { version = "=4.6.7", features = ["derive"] }
colored = "=3.1.1"
env_logger = "=0.11.11"
heck = "=0.5.0"
log = "=0.4.35"
notify = "=8.2.1"
notify-debouncer-mini = "=0.7.0"
rayon = "=1.12.0"
serde = { version = "=1.0.229", features = ["derive"] }
serde_yaml = "=0.9.34"
tera = "=1.20.1"
thiserror = "=2.0.21"
tree-sitter = "=0.25.10"
tree-sitter-dart = "=0.1.0"
walkdir = "=2.5.0"

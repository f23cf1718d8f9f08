[package]
name = "grin_explorer"
version = "0.1.0"
edition = "2021"
publish = false

[dependencies]
anyhow = "1"
chrono = "0.4"
colored = "2"
config = "0.14"
either = "1"
env_logger = "0.11"
fs_extra = "1"
humantime = "2"
lazy_static = "1"
log = "0.4"
num-format = "0.4"
reqwest = { version = "0.11", features = ["json"] }
rocket = { version = "0.5", features = ["json"] }
rocket_dyn_templates = { version = "0.1", features = ["tera"] }
rusqlite = { version = "0.31", features = ["bundled"] }
serde = { version = "1", features = ["derive"] }
serde_json = "1"
shellexpand = "3"
tera_thousands = "0.1"

[package]
name = "image_find"
version = "0.1.0"
edition = "2021"
publish = false

[dependencies]
sha2 = "*"
base64 = "*"
image = "*"
tiff = "*"
log = "*"
env_logger = "*"
clap = { version = "*", features = ["derive"] }
once_cell = "*"
rusqlite = { version = "*", features = ["bundled"] }
quick-xml = "*"
walkdir = "*"
xxhash-rust = { version = "*", features = ["xxh3"] }
rayon = "*"
serde = { version = "*", features = ["derive"] }
serde_json = "*"
urlencoding = "*"
actix-web = "*"
tokio = { version = "*", features = ["rt"] }

[package]
name = "llama_mini"
version = "0.1.0"
edition = "2021"
publish = false

[dependencies]
anyhow = "=1.0.104"
directories = "=6.0.0"
eframe = { version = "=0.31.1", default-features = false, features = ["default_fonts", "glow", "x11"] }
hf-hub = { version = "=0.5.0", default-features = false, features = ["ureq"] }
reqwest = { version = "=0.12.28", default-features = false, features = ["blocking", "json", "rustls-tls"] }
serde = { version = "=1.0.229", features = ["derive"] }
serde_json = "=1.0.154"
urlencoding = "=2.1.3"
which = "=8.0.6"
zip = { version = "=9.0.5", default-features = false, features = ["deflate-flate2-zlib-rs"] }

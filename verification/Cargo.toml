[package]
name = "blast"
version = "0.1.0"
edition = "2021"
publish = false

[dependencies]
regex = "=1.13.1"
serde = { version = "=1.0.229", features = ["derive"] }
serde_json = "=1.0.154"
toml = "=1.1.8"
walkdir = "=2.5.0"
chrono = "=0.4.45"
indexmap = "=2.14.2"
syn = { version = "=2.0.119", features = ["full"] }
quote = "=1.0.47"
dialoguer = { version = "=0.12.0", features = ["fuzzy-select"] }
css-minify = "=0.5.2"
reqwest = { version = "0.12", default-features = false, features = ["json", "blocking", "rustls-tls"] }
sass-rs = "0.2"

[package]
name = "shiryoku"
version = "0.1.0"
edition = "2021"
publish = false

[dependencies]
anyhow = "=1.0.104"
base64 = "=0.22.1"
chrono = { version = "=0.4.45", features = ["serde"] }
chrono-tz = "=0.10.4"
crossterm = "=0.29.0"
directories = "=6.0.0"
lettre = { version = "=0.11.23", default-features = false, features = ["builder", "smtp-transport", "tokio1", "tokio1-native-tls"] }
mime_guess = "=2.0.5"
pulldown-cmark = { version = "=0.13.5", default-features = false, features = ["html"] }
ratatui = "=0.30.2"
reqwest = { version = "=0.12.28", features = ["json", "multipart"] }
rfd = { version = "=0.17.2", default-features = false, features = ["xdg-portal"] }
serde = { version = "=1.0.229", features = ["derive"] }
serde_json = "=1.0.154"
tempfile = "=3.27.0"
tokio = { version = "=1.54.1", features = ["full"] }
uuid = { version = "=1.29.0", features = ["v4"] }

[package]
name = "lingyu"
version = "1.0.1"
edition = "2021"
publish = false

[dependencies]
serde_json = "1"
hound = "3.5"
zip = { version = "2", default-features = false, features = ["deflate"] }
reqwest = { version = "0.12", default-features = false, features = ["blocking", "multipart", "rustls-tls"] }
tokio = { version = "1", features = ["rt-multi-thread"] }
rusqlite = { version = "0.32", features = ["bundled"] }
arboard = { version = "3", default-features = false }
cpal = "0.15"
gtk4 = "0.9"
gdk-pixbuf = "0.20"
dirs = "5"
dotenvy = "0.15"
chrono = "0.4"

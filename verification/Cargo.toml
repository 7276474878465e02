[package]
name = "sync-lyrics"
version = "0.1.0"
edition = "2021"
publish = false

[dependencies]
scraper = "*"
tokio = { version = "1", features = ["rt-multi-thread", "macros", "sync", "time"] }
reqwest = { version = "0.11", default-features = false, features = ["json", "rustls-tls", "blocking"] }
futures = "0.3"
crossbeam-channel = "0.5"
serde = { version = "1", features = ["derive"] }
serde_derive = "1"
thiserror = "1"
image = { version = "0.24", default-features = false, features = ["png", "jpeg"] }
restson = "*"
dbus = "0.9"
gtk4 = "0.4"
gdk4 = "0.4"
libadwaita = "0.1"

[package]
name = "lucent_launcher"
version = "0.1.0"
edition = "2021"
publish = false

[dependencies]
dirs = "=6.0.0"
gtk4 = "*"
keyring = { version = "=3.6.3", features = ["apple-native", "linux-native", "windows-native"] }
libadwaita = { version = "*", features = ["v1_6"] }
reqwest = { version = "=0.12.28", default-features = false, features = ["blocking", "json", "rustls-tls"] }
serde = { version = "1", features = ["derive"] }
serde_json = "=1.0.154"
sha1 = "=0.10.7"
sha2 = "0.10"
url = "=2.5.8"

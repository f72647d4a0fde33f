[package]
name = "immichsync"
version = "0.1.0"
edition = "2021"
publish = false

[dependencies]
aes-gcm = "=0.10.3"
anyhow = "1"
base64 = "=0.22.1"
chrono = "=0.4.45"
dirs = "=5.0.1"
futures-util = "0.3"
glob = "=0.3.4"
hostname = "=0.4.2"
kamadak-exif = "=0.5.5"
notify = "6"
notify-debouncer-full = "0.3"
reqwest = { version = "=0.12.28", default-features = false, features = ["blocking", "json", "multipart", "stream", "rustls-tls"] }
rusqlite = { version = "0.31", features = ["bundled"] }
semver = "=1.0.28"
serde = { version = "1", features = ["derive"] }
serde_json = "=1.0.154"
sha1 = "=0.10.7"
thiserror = "1"
tokio = { version = "1", features = ["fs", "io-util", "macros", "rt-multi-thread", "sync", "time"] }
tokio-util = { version = "0.7", features = ["io"] }
toml = "0.8"
tracing = "0.1"
tracing-appender = "0.2"
tracing-subscriber = { version = "0.3", features = ["env-filter"] }
windows = { version = "0.58", features = ["Win32_Foundation", "Win32_Graphics_Gdi", "Win32_Security_Cryptography", "Win32_Storage_FileSystem", "Win32_System_Com", "Win32_System_LibraryLoader", "Win32_System_Registry", "Win32_System_Threading", "Win32_UI_Shell", "Win32_UI_Shell_PropertiesSystem", "Win32_UI_WindowsAndMessaging"] }

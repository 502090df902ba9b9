[package]
name = "live_subtitles"
version = "0.1.0"
edition = "2021"
publish = false

[dependencies]
rubato = "=0.16.2"
serde = { version = "=1.0.229", features = ["derive"] }
serde_json = "=1.0.154"
sherpa-rs = { version = "=0.6.8", default-features = false }
windows = { version = "0.58", features = ["Win32_Foundation", "Win32_Media_Audio", "Win32_System_Com"] }

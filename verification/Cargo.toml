[package]
name = "next_slide_client"
version = "0.1.0"
edition = "2021"
publish = false

[dependencies]
anyhow = "1"
dotenv = "0.15"
druid = "0.7"
env_logger = "0.8"
keybd_event = "*"
log = "0.4"
macos-accessibility-client = "*"
macos-app-nap = "*"
reqwest = { version = "0.11", features = ["blocking", "json"] }
tungstenite = "0.13"
url = "2"
webbrowser = "*"

[package]
name = "wox_overlay"
version = "0.1.0"
edition = "2021"
publish = false

[dependencies]
ajson = "=0.3.1"
cocoa = "=0.25.0"
dirs = "=5.0.1"
log = "=0.4.34"
objc = "=0.2.7"
objc-foundation = "=0.1.1"
objc_id = "=0.1.1"
reqwest = { version = "=0.11.27", default-features = false, features = ["blocking"] }
serde_json = "=1.0.154"
simplelog = "=0.12.2"
sysinfo = "=0.29.11"
time = "=0.3.55"
tungstenite = "=0.20.1"
url = "=2.5.8"
window-vibrancy = "0.4"

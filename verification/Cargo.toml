[package]
name = "ticktask"
version = "0.1.0"
edition = "2021"
publish = false

[dependencies]
anyhow = "=1.0.104"
clap = "=4.6.7"
jiff = "=0.2.38"
kolorz = "=1.1.1"
open = "=5.4.4"
platform-dirs = "=0.3.0"
rand = "=0.10.3"
reqwest = { version = "=0.13.5", default-features = false, features = ["blocking", "form", "json"] }
serde = { version = "=1.0.229", features = ["derive"] }
serde_json = "=1.0.151"
tiny_http = "=0.12.0"

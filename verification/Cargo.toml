[package]
name = "bindmidi"
version = "0.1.0"
edition = "2021"
publish = false

[dependencies]
anyhow = "=1.0.104"
directories = "=5.0.1"
enigo = "=0.1.3"
libui = "0.3"
midir = "0.9"
midly = "=0.5.3"
musical_scales = "=0.2.0"
oneshot = "=0.1.13"
serde = { version = "=1.0.229", features = ["derive"] }
serde_json = "=1.0.154"

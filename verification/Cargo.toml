[package]
name = "watchrun"
version = "0.1.0"
edition = "2021"
publish = false

[dependencies]
anyhow = "=1.0.104"
clap = "=4.6.7"
clearscreen = "=5.0.0"
tokio = { version = "=1.53.2", features = ["macros", "rt-multi-thread"] }
watchexec = "=8.4.3"
watchexec-events = "=6.1.3"
watchexec-signals = "=5.1.1"

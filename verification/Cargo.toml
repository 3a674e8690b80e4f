[package]
name = "recent_msgs"
version = "0.1.0"
edition = "2021"
publish = false

[dependencies]
anyhow = "=1.0.104"
clap = { version = "=4.6.7", features = ["derive"] }
colored = "=3.1.1"
grammers-client = "=0.7.0"
grammers-session = "=0.7.0"
tokio = { version = "=1.53.2", features = ["macros", "rt-multi-thread"] }

[package]
name = "regloss_notifier"
version = "0.1.0"
edition = "2021"
publish = false

[dependencies]
num-format = "0.4"
oauth2 = "4"
rand = "0.8"
serde = { version = "1", features = ["derive"] }
serde_json = "1"
time = { version = "0.3", features = ["formatting", "parsing"] }
tokio = { version = "1", features = ["macros", "rt-multi-thread"] }
twitter-v2 = "0.1"

[package]
name = "dfa_visualizer"
version = "0.1.0"
edition = "2021"
publish = false

[dependencies]
serde = { version = "1", features = ["derive"] }
serde_json = "1"
reqwest = { version = "0.12", features = ["json"] }
dirs = "5"
sysinfo = "0.32"
tokio = { version = "1", features = ["sync", "time"] }

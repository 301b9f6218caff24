[package]
name = "wind"
version = "0.1.0"
edition = "2021"
publish = false

[dependencies]
unicode-segmentation = "*"
anyhow = "*"
clap = { version = "*", features = ["derive"] }
crossterm = { version = "*", features = ["event-stream"] }
futures-util = "*"
ratatui = "*"
tokio = { version = "*", features = ["macros", "rt-multi-thread"] }

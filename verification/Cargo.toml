[package]
name = "shacker"
version = "0.1.0"
edition = "2021"
publish = false

[dependencies]
ratatui = "=0.30.2"
ratatui-textarea = "=0.9.4"
russh = "=0.65.1"
sqlite = "=0.37.4"
tokio = { version = "=1.54.1", features = ["macros", "rt-multi-thread"] }
clap = { version = "=4.6.7", features = ["derive"] }

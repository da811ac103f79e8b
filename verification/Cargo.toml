[package]
name = "lx"
version = "0.1.0"
edition = "2021"
publish = false

[dependencies]
crossterm = "0.20"
serde = { version = "1", features = ["derive"] }
tokio = { version = "1", features = ["macros", "rt-multi-thread"] }
tui = { version = "0.16", default-features = false, features = ["crossterm"] }

[package]
name = "avatarctl"
version = "0.1.0"
edition = "2021"
publish = false

[dependencies]
clap = { version = "=4.6.7", features = ["derive"] }
reqwest = { version = "=0.13.5", features = ["cookies"] }
reqwest-middleware = "=0.5.2"
rusqlite = { version = "=0.40.2", features = ["bundled"] }
tokio = { version = "=1.53.2", features = ["macros", "rt-multi-thread", "time"] }
url = "=2.5.8"
vrchatapi = "=1.21.0"

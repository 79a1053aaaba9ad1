[package]
name = "repository_wrapup"
version = "0.1.0"
edition = "2021"
publish = false

[dependencies]
async-trait = "=0.1.92"
chrono = "=0.4.45"
clap = { version = "=4.6.7", features = ["derive"] }
octocrab = "=0.51.0"
tokio = { version = "=1.53.2", features = ["macros", "rt-multi-thread"] }

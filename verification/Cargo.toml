[package]
name = "protonup_core"
version = "0.1.0"
edition = "2021"
publish = false

[dependencies]
clap = { version = "=4.6.7", features = ["derive"] }
inquire = "=0.9.4"
libprotonup = "=0.15.1"
tokio = { version = "=1.53.2", features = ["macros", "rt-multi-thread", "fs"] }

[package]
name = "acfunonline"
version = "0.1.0"
edition = "2021"
publish = false

[dependencies]
anyhow = "1"
casual = "0.2"
clap = "2"
iced = { version = "0.3", features = ["tokio"] }
log = "0.4"
rpassword = "5"
tokio = { version = "1", features = ["macros", "rt-multi-thread", "sync", "time"] }

[package]
name = "cacheman"
version = "0.1.0"
edition = "2021"
publish = false

[dependencies]
actix-files = "=0.6.10"
actix-web = "=4.18.1"
anyhow = "=1.0.104"
futures = "=0.3.34"
hostname = "=0.4.2"
reqwest = { version = "=0.13.5", default-features = false }
tokio = { version = "=1.54.1", features = ["macros", "process", "rt-multi-thread", "sync", "time"] }
zbus = { version = "=6.1.0", default-features = false, features = ["proxy", "tokio"] }

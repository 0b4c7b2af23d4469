[package]
name = "smbpbi"
version = "0.1.0"
edition = "2021"
publish = false

[dependencies]
anyhow = "=1.0.104"
clap = { version = "=4.6.7", features = ["derive"] }
i2cdev = "=0.6.2"
tokio = { version = "=1.54.1", features = ["macros", "rt-multi-thread"] }
zbus = { version = "=5.19.0", default-features = false, features = ["tokio"] }

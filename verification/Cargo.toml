[package]
name = "railwind"
version = "0.1.0"
edition = "2021"
publish = false

[dependencies]
clap = { version = "*", features = ["derive"] }
globwalk = "*"
notify = "*"
ron = "*"
serde = { version = "*", features = ["derive"] }

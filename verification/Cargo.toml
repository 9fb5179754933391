[package]
name = "oasystem"
version = "0.1.0"
edition = "2021"
publish = false

[dependencies]
log = "=0.4.34"
openaction = "=2.8.0"
simplelog = "=0.12.2"
sysinfo = { version = "=0.39.6", default-features = false, features = ["system"] }
tokio = { version = "=1.54.1", features = ["macros", "rt-multi-thread", "time"] }

[package]
name = "touchbars"
version = "0.1.0"
edition = "2021"
publish = false

[dependencies]
critical-section = { version = "=1.2.0", features = ["std"] }
embassy-executor = { version = "=0.10.0", features = ["platform-std", "executor-thread"] }
embassy-futures = "=0.1.2"
embassy-time = "=0.5.1"
log = "=0.4.35"
sifli-pac = { version = "=0.2.0", features = ["sf32lb52x"] }

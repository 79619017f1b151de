[package]
name = "pomo_cli"
version = "0.1.0"
edition = "2021"
publish = false

[dependencies]
argh = "*"
ctrlc = "*"
dirs = "*"
exitcode = "*"
flume = "*"
inquire = "*"
tokio = { version = "1", features = ["rt-multi-thread", "macros", "time"] }

[package]
name = "quicinput"
version = "0.1.0"
edition = "2021"
publish = false

[dependencies]
quinn = "*"
rcgen = "*"
rustls = "*"
tokio = { version = "*", features = ["rt-multi-thread", "sync", "net", "time", "macros"] }
rdev = "*"
uinput = "*"

[package]
name = "weather_proxy"
version = "0.1.0"
edition = "2021"
publish = false

[dependencies]
chrono = "0.4"
hyper = { version = "0.14", features = ["full"] }
hyper-rustls = "0.23"
tokio = { version = "1", features = ["full"] }
tokio-util = { version = "0.7", features = ["codec"] }
clap = { version = "3", features = ["derive", "env"] }
clap-verbosity-flag = "1"
env_logger = "0.9"
log = "0.4"
tempfile = "3"
filetime = "0.2"
file-mode = "0.1"
is_executable = "1"
pathsearch = "0.2"

[package]
name = "ftp_launch"
version = "0.1.0"
edition = "2021"
publish = false

[dependencies]
clap = { version = "=4.6.7", features = ["derive"] }
libunftp = "0.21.1"
pretty_env_logger = "=0.5.0"
tokio = { version = "=1.54.1", features = ["macros", "rt-multi-thread", "time"] }
unftp-sbe-fs = "=0.3.0"

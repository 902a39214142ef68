[package]
name = "pingpong"
version = "0.1.0"
edition = "2021"
publish = false

[dependencies]
dotenv = "*"
futures = "0.1"
telebot = "0.2"
tokio-core = "0.1"
tokio-timer = "0.1"

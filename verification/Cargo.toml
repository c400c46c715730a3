[package]
name = "metric_time"
version = "0.1.0"
edition = "2021"
publish = false

[dependencies]
chrono = "0.4"
num = "0.4"
rand = "0.8"
ryu = "1"

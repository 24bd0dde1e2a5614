[package]
name = "slog_global"
version = "0.1.0"
edition = "2021"
publish = false

[dependencies]
arc-swap = "0.4"
lazy_static = "1"
log = "0.3"
slog = "2"
slog-async = "2"

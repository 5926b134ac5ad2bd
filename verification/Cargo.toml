[package]
name = "hutch"
version = "0.1.0"
edition = "2021"
publish = false

[dependencies]
smithay = "0.3"
slog = "2"
slog-async = "2"
slog-envlogger = "2"
slog-stdlog = "4"
slog-term = "2"

[package]
name = "gers"
version = "0.1.0"
edition = "2021"
publish = false

[dependencies]
log = "0.4"
serde = { version = "1", features = ["derive"] }
slog = "2"
slog-async = "2"
slog-scope = "4"
slog-stdlog = "4"
slog-term = "2"
thiserror = "1"
toml = "0.5"
wasmer = "4"
wasmer-compiler-cranelift = "4"
winit = "0.28"

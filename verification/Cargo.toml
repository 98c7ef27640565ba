[package]
name = "podcore"
version = "0.1.0"
edition = "2021"
publish = false

[dependencies]
chan = "0.1"
chrono = "0.4"
clap = "2"
diesel = { version = "1.4", features = ["postgres", "chrono"] }
isatty = "0.1"
quick-xml = "0.22"
r2d2 = "0.8"
r2d2-diesel = "1.0"
regex = "1"
rust-crypto = "0.2"
serde = { version = "1", features = ["derive"] }
serde_json = "1"
slog = "2"
slog-async = "2"
slog-term = "2"

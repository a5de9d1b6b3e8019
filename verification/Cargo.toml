[package]
name = "pamguide"
version = "0.1.0"
edition = "2021"
publish = false

[dependencies]
chrono = "0.4"
clap = { version = "4", features = ["derive"] }
csv = "1"
hound = "3"
ndarray = "*"
rayon = "1"
rustfft = "6"
serde = { version = "1", features = ["derive"] }
toml = "*"

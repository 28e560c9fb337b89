[package]
name = "pa_bench"
version = "0.1.0"
edition = "2021"
publish = false

[dependencies]
chrono = "=0.4.45"
clap = { version = "=4.6.7", features = ["derive"] }
core_affinity = "=0.8.3"
ctrlc = "=3.5.2"
parse_duration = "=2.1.1"
serde = { version = "=1.0.229", features = ["derive"] }
serde_json = "=1.0.151"
serde_yaml = "=0.9.34"
wait4 = "=0.2.0"

[package]
name = "andean_condor"
version = "0.1.0"
edition = "2021"
publish = false

[dependencies]
serde = { version = "=1.0.229", features = ["derive"] }
serde_json = "=1.0.154"
chrono = "=0.4.45"
which = "=8.0.6"
av1-grain = "=0.5.0"
arrayvec = "=0.7.8"
strsim = "=0.11.1"
rand = "0.9"

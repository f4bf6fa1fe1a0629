[package]
name = "smoomars"
version = "0.1.0"
edition = "2021"
publish = false

[dependencies]
rulinalg = "0.4"
clap = "*"
csv = "*"
geojson = "*"
jobsteal = "*"
num_cpus = "*"
serde = { version = "*", features = ["derive"] }
serde_json = "*"

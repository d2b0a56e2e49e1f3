[package]
name = "resume_state"
version = "0.1.0"
edition = "2021"
publish = false

[dependencies]
confy = "0.6.1"
dyn-clone = "1.0.20"
jiff = "0.1.29"
lipsum = "0.9.1"
serde = { version = "1.0.229", features = ["derive"] }
serde_yaml = "0.9.34"

[package]
name = "judge_relay"
version = "0.1.0"
edition = "2021"
publish = false

[dependencies]
ftp = "=3.0.1"
reqwest = { version = "=0.13.5", features = ["blocking", "query"] }
serde_json = "=1.0.154"

[package]
name = "rolldown_resolver"
version = "0.1.0"
edition = "2021"
publish = false

[dependencies]
anyhow = "=1.0.104"
itertools = "=0.13.0"
oxc_resolver = { version = "=1.12.0", features = ["package_json_raw_json_api"] }
sugar_path = "=1.2.1"

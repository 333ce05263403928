[package]
name = "chart_js_wrapper"
version = "0.1.0"
edition = "2021"
publish = false

[dependencies]
time = { version = "*", features = ["formatting", "parsing"] }
chrono = "*"
uuid = { version = "*", features = ["v4"] }

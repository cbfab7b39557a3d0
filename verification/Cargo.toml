[package]
name = "dsfsynth"
version = "0.1.0"
edition = "2021"
publish = false

[dependencies]
lv2 = { version = "0.6.0", features = ["full"] }
wmidi = "3.1.0"

[package]
name = "ohos_vsync"
version = "0.1.0"
edition = "2021"
publish = false

[dependencies]
ohos-sys = { version = "=0.9.0", features = ["vsync"] }

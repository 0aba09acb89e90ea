[package]
name = "uno_wifi_app"
version = "0.1.0"
edition = "2021"
publish = false

[dependencies]
cortex-m = "*"
cortex-m-rt = "*"
defmt = "*"
embedded-hal = "1"
ra4m1 = { version = "=0.2.0", features = ["rt"] }

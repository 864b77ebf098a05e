[package]
name = "jiff_chrono_conversions"
version = "0.1.0"
edition = "2021"
publish = false

[dependencies]
chrono = "0.4"
chrono-tz = "0.10"
jiff = "0.2"
thiserror = "2"

[package]
name = "screen_time"
version = "0.1.0"
edition = "2021"
publish = false

[dependencies]
csv = "*"
directories = "*"
log = "*"
x11rb = "*"

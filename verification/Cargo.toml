[package]
name = "suzy"
version = "0.1.0"
edition = "2021"
publish = false

[dependencies]
drying_paint = "=0.5.6"
widestring = "=1.2.1"
libc = "=0.2.191"
png = "*"

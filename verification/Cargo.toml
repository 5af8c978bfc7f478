[package]
name = "airqual"
version = "0.1.0"
edition = "2021"
publish = false

[dependencies]
embassy-executor = "*"
embassy-futures = "*"
embassy-net = { version = "*", features = ["dhcpv4", "medium-ethernet", "proto-ipv4", "udp"] }
embassy-sync = "*"
embassy-time = "*"
embedded-graphics = "*"
embedded-hal-bus = "*"
heapless = "*"
mipidsi = "*"
static_cell = "*"
u8g2-fonts = "*"
zerocopy = "0.8"

[dev-dependencies]
critical-section = { version = "1", features = ["std"] }

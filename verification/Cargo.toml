[package]
name = "pico_notifier"
version = "0.1.0"
edition = "2021"
publish = false

[dependencies]
reqwless = { version = "=0.14.0", default-features = false }
embedded-nal-async = "=0.9.0"
embedded-hal = "=1.0.0"
heapless = "=0.9.3"
embassy-net = { version = "=0.9.1", features = ["tcp", "dns", "dhcpv4", "proto-ipv4", "medium-ethernet"] }
embassy-time = "=0.5.1"
cyw43 = "=0.7.0"
static_cell = "=2.1.1"
rand_core = "=0.10.1"

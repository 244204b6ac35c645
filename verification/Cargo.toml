[package]
name = "device_kit"
version = "0.1.0"
edition = "2021"
publish = false

[dependencies]
crc32fast = { version = "=1.5.4", default-features = false }
hash32 = "=0.3.1"
heapless = "=0.9.3"
postcard = { version = "=1.1.3", features = ["use-std"] }
serde = { version = "=1.0.229", features = ["derive"] }
smart-leds = "=0.4.0"
embedded-graphics = "=0.8.2"
embassy-time = { version = "=0.4.0", features = ["std", "generic-queue-8"] }
embassy-sync = "=0.6.2"
embassy-futures = "=0.1.2"
time = { version = "=0.3.55", default-features = false }

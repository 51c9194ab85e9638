[package]
name = "esp-idf-matter"
version = "0.1.0"
edition = "2021"
publish = false

[dependencies]
esp-idf-svc = "=0.53.0"
embassy-futures = "=0.1.2"
embassy-sync = "=0.8.0"
embassy-time = { version = "=0.5.1", features = ["tick-hz-1_000_000"] }
edge-nal = "=0.7.0"
heapless = "=0.8.0"
log = "=0.4.35"

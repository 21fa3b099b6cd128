[package]
name = "golioth_rs"
version = "0.1.0"
edition = "2021"
publish = false

[dependencies]
coap-lite = { version = "=0.13.3", default-features = false }
cortex-m = "=0.7.10"
embassy-executor = "=0.10.0"
embassy-nrf = { version = "=0.11.0", features = ["nrf9160-ns"] }
embassy-time = { version = "=0.5.1", features = ["std"] }
embedded-alloc = "=0.7.0"
embedded-io-async = "=0.7.0"
heapless = "=0.9.3"
nanorand = { version = "=0.8.0", default-features = false, features = ["wyrand"] }
nrf-modem = { version = "=0.11.0", features = ["nrf9160"] }
nrfxlib = "=0.6.1"
serde = { version = "=1.0.229", default-features = false, features = ["alloc", "derive"] }
serde_json = { version = "=1.0.154", default-features = false, features = ["alloc"] }

[dev-dependencies]
at-commands = "=0.5.8"

[package]
name = "volume_knob"
version = "0.1.0"
edition = "2021"
publish = false

[dependencies]
trouble-host = { version = "=0.5.1", features = ["security", "derive"] }
embassy-futures = "=0.1.2"
embassy-sync = "0.7"
embassy-time = { version = "0.5", features = ["std"] }
embassy-executor = { version = "=0.9.1", features = ["arch-std", "executor-thread"] }
embassy-rp = { version = "=0.9.0", features = ["rp2040"] }
cyw43 = { version = "=0.6.0", features = ["bluetooth"] }
cyw43-pio = "=0.9.0"
async-debounce = "=0.3.0"
embedded-hal = "=1.0.0"
embedded-hal-async = "=1.0.0"
static_cell = "2.1"
rand_core = "=0.6.4"
defmt = "1"
defmt-rtt = "1"
panic-probe = "1"

[package]
name = "lidar-fill-state"
version = "0.1.0"
edition = "2021"
publish = false

[dependencies]
heapless = "=0.9.3"
embassy-time = { version = "=0.5.1", features = ["tick-hz-1_000_000"] }
embassy-executor = "=0.10.0"
embassy-net = { version = "=0.9.1", features = ["tcp", "dhcpv4", "medium-ethernet"] }
embassy-sync = "=0.8.0"
edge-http = "=0.8.0"
edge-nal = "=0.7.0"
edge-nal-embassy = "=0.9.0"
embedded-io-async = "=0.7.0"
littlefs-rust = "=0.1.0"
log = "0.4"
static_cell = "2"
cc = "1"
esp-hal = { version = "1.2", features = ["esp32c6", "unstable"] }
esp-radio = { version = "1.0.0-beta.0", features = ["esp32c6", "unstable", "wifi"] }
esp-rtos = { version = "0.4", features = ["esp32c6", "embassy", "esp-radio"] }
esp-alloc = "0.11"
esp-println = { version = "0.18", features = ["esp32c6", "log-04"] }
esp-storage = { version = "0.10", features = ["esp32c6"] }
esp-bootloader-esp-idf = { version = "0.6", features = ["esp32c6"] }

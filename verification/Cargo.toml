[package]
name = "charybdis_rmk"
version = "0.1.0"
edition = "2021"
publish = false

[dependencies]
heapless = "=0.9.3"
trouble-host = { version = "=0.8.0", features = ["security"] }
bt-hci = "=0.10.1"
sequential-storage = "=8.0.2"
embedded-storage = "=0.3.2"
embedded-storage-async = "=0.4.2"
embassy-sync = "=0.8.0"
embassy-futures = "=0.1.2"
embassy-time = "=0.5.1"
embassy-embedded-hal = "=0.6.0"
embassy-usb = "*"
postcard = "=1.1.3"
serde = { version = "=1.0.229", default-features = false, features = ["derive", "alloc"] }
static_cell = "=2.1.1"

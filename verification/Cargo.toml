[package]
name = "hsm_demo"
version = "0.1.0"
edition = "2021"
publish = false

[dependencies]
hex = "=0.4.3"
p256 = { version = "=0.13.2", features = ["ecdsa"] }
sha2 = "=0.10.9"
signature = "=2.2.0"
yubihsm = { version = "=0.42.1", features = ["usb"] }

[dev-dependencies]
yubihsm = { version = "=0.42.1", features = ["mockhsm", "usb"] }

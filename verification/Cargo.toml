[package]
name = "quadcopter"
version = "0.1.0"
edition = "2021"
publish = false

[dependencies]
defmt = "=1.2.0"
defmt-rtt = "=1.3.1"
embedded-alloc = "=0.7.0"
embedded-cli = "=0.2.1"
embedded-hal = "=1.0.0"
embedded-hal-async = "=1.0.0"
embedded-hal-bus = "=0.3.0"
embedded-hal-nb = "=1.0.0"
embedded-io = "=0.6.1"
nb = "=1.1.0"
panic-probe = "=1.0.0"
rtic = { version = "=2.4.0", features = ["thumbv7-backend"] }
rtic-monotonics = "2"
ryu = "=1.0.23"
stm32f4xx-hal = { version = "=0.23.0", features = ["stm32f411", "usb_fs", "rtic2", "rtic-tim5"] }
ufmt = "=0.2.0"
usb-device = "=0.3.2"
usbd-serial = "=0.2.2"

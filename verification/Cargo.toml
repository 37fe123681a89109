[package]
name = "opal"
version = "0.1.0"
edition = "2021"
publish = false

[dependencies]
prost = "0.12"
heapless = "0.7"
libm = "0.2"
cortex-m = "0.7"
cortex-m-rtic = "1.1"
systick-monotonic = "1.0"
stm32f1xx-hal = { version = "0.10", features = ["stm32f103", "medium"] }
usb-device = "0.2"
usbd-serial = "0.1"
embedded-hal = "0.2"

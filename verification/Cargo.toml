[package]
name = "multi_mission_library"
version = "0.1.0"
edition = "2021"
publish = false

[dependencies]
byteorder = { version = "1", default-features = false }
embedded-hal = "0.2"
cortex-m = "0.7"
cortex-m-rt = "0.7"
panic-halt = "0.2"
heapless = "0.8"
micromath = "2"
usb-device = "0.3"
usbd-serial = "0.2"
stm32f4xx-hal = { version = "0.21", features = ["stm32f411", "usb_fs"] }
imu-fusion = "*"

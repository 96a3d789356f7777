[package]
name = "cat_scale"
version = "0.1.0"
edition = "2021"
publish = false

[dependencies]
cortex-m = "=0.7.10"
cortex-m-rt = "=0.7.7"
embassy-executor = "=0.10.0"
embassy-nrf = { version = "=0.11.0", features = ["nrf52840", "gpiote", "time-driver-rtc1", "unstable-pac"] }
embassy-time = "=0.5.1"
embassy-usb = "=0.6.0"
embassy-usb-logger = "=0.6.0"
embedded-hal = "=1.0.0"
lis3dh-async = "=0.9.3"
loadcell = "=0.3.0"
log = "=0.4.35"
nrf-softdevice = { version = "=0.1.0", features = ["nrf52840", "s140", "ble-peripheral", "critical-section-impl"] }
static_cell = "=2.1.1"

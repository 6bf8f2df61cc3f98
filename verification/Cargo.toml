[package]
name = "usb_audio_dac"
version = "0.1.0"
edition = "2021"
publish = false

[dependencies]
cortex-m-rt = "=0.7.7"
defmt = "=1.2.0"
defmt-rtt = "=1.3.1"
embassy-executor = { version = "=0.10.0", features = ["executor-thread", "platform-spin"] }
embassy-futures = "=0.1.2"
embassy-rp = { version = "=0.10.0", features = ["_test", "critical-section-impl", "rp235xa"] }
embassy-sync = "=0.8.0"
embassy-usb = "=0.6.0"
embassy-usb-driver = "=0.2.2"
fixed = "=1.31.0"
panic-probe = "=1.0.0"
pio = "=0.3.0"
static_cell = "=2.1.1"

[package]
name = "doppler_radar"
version = "0.1.0"
edition = "2021"
publish = false

[dependencies]
microfft = "=0.6.0"
arrayvec = { version = "=0.7.8", default-features = false }
cortex-m = "=0.7.9"
cortex-m-rt = "*"
hd44780-driver = "=0.4.0"
rtt-target = "=0.6.2"
panic-rtt-target = "=0.2.0"
stm32l4xx-hal = { version = "=0.7.1", features = ["stm32l476", "rt"] }

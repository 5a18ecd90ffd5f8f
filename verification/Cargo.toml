[package]
name = "air_quality_monitor"
version = "0.1.0"
edition = "2021"
publish = false

[dependencies]
heapless = "0.8"
cortex-m = { version = "0.7", features = ["critical-section-single-core"] }
cortex-m-rt = "0.7"
defmt = "*"
defmt-rtt = "*"
panic-probe = { version = "*", features = ["print-defmt"] }
embedded-graphics = "0.8"
embedded-hal-bus = "*"
nb = "1"
sht31 = "*"
ssd1306 = "*"
stm32f1xx-hal = { version = "*", features = ["stm32f103", "medium"] }

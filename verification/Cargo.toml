[package]
name = "max7219_matrix"
version = "0.1.0"
edition = "2021"
publish = false

[dependencies]
defmt = "=1.2.0"
embedded-graphics = "=0.8.2"
embedded-hal = "=1.0.0"
embedded-hal-bus = "=0.3.0"
esp-alloc = "*"
esp-bootloader-esp-idf = { version = "=0.6.0", features = ["esp32"] }
esp-hal = { version = "=1.2.2", features = ["esp32", "unstable"] }
esp-println = { version = "=0.18.0", features = ["esp32", "defmt-espflash"] }

[dev-dependencies]
max7219-display = { version = "=0.1.5", features = ["led-matrix", "graphics"] }

[package]
name = "media_widget"
version = "0.1.0"
edition = "2021"
publish = false

[dependencies]
bt-hci = { version = "=0.8.1", features = ["uuid"] }
defmt = "=1.2.0"
embassy-embedded-hal = "=0.6.0"
embassy-executor = "=0.10.0"
embassy-futures = "=0.1.2"
embassy-sync = "=0.7.2"
embassy-time = "=0.5.1"
embedded-graphics = "=0.8.2"
embedded-storage = "=0.3.2"
embedded-storage-async = "=0.4.2"
esp-alloc = { version = "=0.10.0", features = ["esp32s3"] }
esp-bootloader-esp-idf = { version = "=0.5.0", features = ["esp32s3"] }
esp-hal = { version = "=1.1.2", features = ["esp32s3", "unstable"] }
esp-radio = { version = "=0.18.0", features = ["esp32s3", "ble", "coex", "unstable", "wifi"] }
esp-rtos = { version = "=0.3.0", features = ["embassy", "esp-alloc", "esp-radio", "esp32s3"] }
esp-storage = { version = "=0.9.0", features = ["esp32s3"] }
panic-rtt-target = { version = "=0.2.0", features = ["defmt"] }
rtt-target = { version = "=0.6.2", features = ["defmt"] }
sequential-storage = "=7.2.0"
ssd1306 = { version = "=0.10.0", features = ["async"] }
trouble-host = { version = "=0.6.0", features = ["derive", "gatt", "peripheral", "security"] }

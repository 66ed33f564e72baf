[package]
name = "gatt_server"
version = "0.1.0"
edition = "2021"
publish = false

[dependencies]
stm32wb-hci = "=0.17.4"
embassy-stm32 = { version = "=0.6.0", features = ["stm32wb55rg"] }
embassy-executor = "=0.10.0"
defmt = "=1.2.0"
defmt-rtt = "=1.3.1"
panic-probe = "=1.0.0"

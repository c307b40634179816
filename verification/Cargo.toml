[package]
name = "amarui"
version = "0.1.0"
edition = "2021"
publish = false

[dependencies]
bootloader_api = "=0.11.17"
conquer-once = "=0.4.0"
log = "=0.4.34"
pic8259 = "=0.11.0"
spin = "=0.12.3"
uart_16550 = "=0.3.2"
x86_64 = { version = "=0.15.5", default-features = false, features = ["instructions"] }

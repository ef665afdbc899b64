[package]
name = "gpio_pin"
version = "0.1.0"
edition = "2021"
publish = false

[dependencies]
sysfs_gpio = "*"

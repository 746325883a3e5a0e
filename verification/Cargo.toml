[package]
name = "dotmatrix_ui"
version = "0.1.0"
edition = "2021"
publish = false

[dependencies]
embedded-graphics = "0.6"
embedded-hal = "0.2"
gd32vf103-pac = "*"
gd32vf103xx-hal = "*"
nb = "*"
panic-halt = "*"
riscv-rt = "*"
ssd1306 = "0.4"

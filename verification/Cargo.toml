[package]
name = "clue_dash"
version = "0.1.0"
edition = "2021"
publish = false

[dependencies]
heapless = "=0.7.17"
apds9960 = "=0.1.0"
bmp280-rs = "=0.1.2"
cortex-m-rt = "=0.7.7"
display-interface-spi = "=0.4.1"
embedded-graphics = "=0.7.1"
embedded-hal = "=0.2.7"
lis3mdl = "=0.1.0"
lsm6ds33 = "=0.5.0"
nrf52840-hal = "=0.16.1"
shared-bus = "=0.2.5"
sht3x = "=0.1.1"
st7789 = "=0.7.0"

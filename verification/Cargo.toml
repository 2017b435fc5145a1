[package]
name = "adalogger"
version = "0.1.0"
edition = "2021"
publish = false

[dependencies]
embedded-sdmmc = "0.4"
heapless = "0.7"
embedded-hal = "0.2"
cortex-m = "0.7"
scd4x = "*"
embassy-executor = "*"
embassy-rp = "*"
embassy-sync = "*"
embassy-time = "*"
embedded-graphics = "*"
embedded-graphics-core = "*"
sh1107 = "*"
shared-bus = "*"
static_cell = "*"
defmt-rtt = "*"
panic-probe = "*"

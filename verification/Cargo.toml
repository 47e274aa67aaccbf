[package]
name = "pico_labs"
version = "0.1.0"
edition = "2021"
publish = false

[dependencies]
actix-web = { version = "=4.18.1", default-features = false, features = ["macros"] }
cortex-m-rt = "=0.7.7"
defmt = "=1.2.0"
defmt-rtt = "=1.3.1"
display-interface-spi = "=0.5.0"
embassy-embedded-hal = "=0.6.0"
embassy-executor = "=0.9.1"
embassy-futures = "=0.1.2"
embassy-sync = "=0.8.0"
embassy-time = "=0.5.1"
embedded-graphics = "=0.8.1"
embedded-hal-async = "=1.0.0"
env_logger = "=0.11.11"
fixed = "=1.31.0"
micromath = "=2.1.0"
mipidsi = "=0.9.0"
panic-probe = "=1.0.0"
rp235x-hal = "=0.4.0"
serde = { version = "=1.0.229", features = ["derive"] }
tokio = { version = "=1.54.1", features = ["net", "io-util", "rt", "macros"] }

[package]
name = "blinky_handoff"
version = "0.1.0"
edition = "2021"
publish = false

[dependencies]
cortex-m = "=0.7.10"
cortex-m-rt = "=0.7.7"
embedded-hal = { version = "=0.2.7", features = ["unproven"] }
panic-halt = "=0.2.0"
sparkfun-thing-plus-rp2040 = "=0.7.0"

[package]
name = "imu_telemetry"
version = "0.1.0"
edition = "2021"
publish = false

[dependencies]
heapless = "0.8"
cortex-m = "*"
cortex-m-rt = "*"
lsm303agr = "*"
microbit-v2 = "*"
panic-halt = "*"
rtt-target = "*"

[package]
name = "wcet_profiling"
version = "0.1.0"
edition = "2021"
publish = false

[dependencies]
rtic-sync = "=1.6.0"
critical-section = { version = "=1.2.0", features = ["std"] }
cortex-m = "=0.7.10"
cortex-m-semihosting = "=0.6.0"
defmt = "=1.2.0"
defmt-rtt = "=1.3.1"
rtic = { version = "=2.4.0", features = ["thumbv7-backend"] }
rtic-monotonics = { version = "=2.2.1", features = ["cortex-m-systick"] }

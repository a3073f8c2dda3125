[package]
name = "andros"
version = "0.1.0"
edition = "2021"
publish = false

[dependencies]
aht10 = "=0.0.1"
alsa = "=0.12.1"
atomic_float = "=1.1.0"
bmp280 = "=0.4.0"
chrono = { version = "=0.4.45", features = ["serde"] }
circular-buffer = "=1.2.1"
crossbeam-channel = "=0.5.17"
flexi_logger = "=0.31.10"
hound = "=3.5.1"
ina219 = { version = "=0.2.1", features = ["std"] }
log = "=0.4.34"
mpu9250 = { version = "=0.25.0", features = ["i2c"] }
ndarray = "=0.17.2"
ndarray-conv = "=0.6.1"
nmea = "=0.8.0"
ort = "=2.0.0-rc.15"
parking_lot = "=0.13.0"
rand = "=0.10.3"
reqwest = { version = "=0.13.5", features = ["blocking"] }
rppal = { version = "=0.22.1", features = ["hal"] }
serde = { version = "=1.0.229", features = ["derive"] }
serde_json = "=1.0.154"
signal-hook = "=0.4.5"
spectrum-analyzer = "=2.0.0"
sysinfo = "=0.39.6"
thiserror = "=2.0.21"
tungstenite = "=0.30.0"

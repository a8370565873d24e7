[package]
name = "ceph_monitor"
version = "0.1.0"
edition = "2021"
publish = false

[dependencies]
regex = "=1.13.1"
uuid = "=1.29.0"
rustc-serialize = "=0.3.25"
time = "=0.1.45"
hyper = "=0.10.16"
influent = "0.5"
futures = "0.1"
log = "=0.4.35"
simple_logger = "=5.2.0"
ceph = "=3.2.5"

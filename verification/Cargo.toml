[package]
name = "motion_core"
version = "0.1.0"
edition = "2021"
publish = false

[dependencies]
vexide = "=0.7.0"
nalgebra = "=0.35.0"
log = "=0.4.34"
bon = "=3.10.3"
num-traits = "=0.2.19"

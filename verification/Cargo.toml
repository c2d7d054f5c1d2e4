[package]
name = "robo_monitor"
version = "0.1.0"
edition = "2021"
publish = false

[dependencies]
hc-sr04 = "*"
nalgebra = "*"
ratatui = "0.29"
rppal = "*"

[package]
name = "single_phase_line"
version = "0.1.0"
edition = "2021"

[dependencies]
unit-conversions = "*"

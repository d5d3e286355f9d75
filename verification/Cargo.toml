[package]
name = "pwm_sound"
version = "0.1.0"
edition = "2021"
publish = false

[package]
name = "audio_limiter"
version = "0.1.0"
edition = "2021"
publish = false

[dependencies]
ringbuffer = "=0.16.0"

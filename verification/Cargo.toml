[package]
name = "audio_scope"
version = "0.1.0"
edition = "2021"
publish = false

[dependencies]
bit_mask_ring_buf = "*"
circular-queue = "*"
slice_ring_buf = "*"

[package]
name = "pixel_sampler"
version = "0.1.0"
edition = "2021"
publish = false

[dependencies]
argparse = "*"
device_query = "*"
rdev = "*"
scrap = "*"

[package]
name = "storyboard"
version = "0.1.0"
edition = "2021"
publish = false

[dependencies]
rect_packer = "0.2"
bytemuck = "1"
ttf-parser = "0.15"
rustybuzz = "0.5"
ab_glyph_rasterizer = "0.1"
euclid = "0.22"
instant = "0.1"
parking_lot = "0.12"
replace_with = "0.1"
palette = "0.6"
ringbuffer = "*"
indexmap = "*"
rustc-hash = "*"
downcast = "*"
allsorts = "*"

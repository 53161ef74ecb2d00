[package]
name = "glyph_pipeline"
version = "0.1.0"
edition = "2021"
publish = false

[dependencies]
glyph_brush = "=0.7.12"
ab_glyph = "=0.2.32"
log = "0.4"

[package]
name = "framework"
version = "0.1.0"
edition = "2021"
publish = false

[dependencies]
ab_glyph = "=0.2.32"
directories = "=6.0.0"
httpdate = "=1.0.3"
jni = "=0.22.4"
libc = "=0.2.191"
serde_json = "=1.0.154"
tiny-skia = "=0.12.0"
tracing = "=0.1.44"

[package]
name = "android_native_surface"
version = "0.1.0"
edition = "2021"
publish = false

[dependencies]
android_logger = "0.11"
gl = "0.14"
glium = "0.32"
jni = "0.19"
libc = "0.2"
log = "0.4"
ndk = { version = "0.7", features = ["api-level-28"] }

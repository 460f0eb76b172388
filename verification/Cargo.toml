[package]
name = "renderer_bridge"
version = "0.1.0"
edition = "2021"
publish = false

[dependencies]
ndarray = "0.15"
jni = "0.20"
jni_fn = "0.1"
log = "0.4"
android_logger = "0.11"
raw-window-handle = "0.5"

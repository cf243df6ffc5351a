[package]
name = "cliente_vr_pandasz"
version = "0.1.0"
edition = "2021"
publish = false

[dependencies]
android-activity = { version = "0.6", features = ["native-activity"] }
android_logger = "*"
glow = "*"
jni = "0.21"
khronos-egl = { version = "6", features = ["dynamic"] }
libloading = "0.8"
log = "0.4"
ndk = "0.9"
ndk-sys = "0.6"

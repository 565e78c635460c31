[package]
name = "lunaris-media"
version = "0.1.0"
edition = "2021"
publish = false

[dependencies]
ashpd = { version = "=0.13.13", features = ["screencast"] }
async-trait = "=0.1.92"
cpal = "=0.18.2"
drm-fourcc = "=2.2.0"
enumflags2 = "=0.7.12"
evdev = "=0.12.2"
ffmpeg-next = "=9.0.0"
libc = "=0.2.191"
libloading = "=0.8.9"
log = "=0.4.35"
nvfbc = "=0.2.0"
nvfbc-sys = "=0.2.0"
opus = "=0.4.0"
pipewire = "=0.10.1"
thiserror = "=1.0.69"
tokio = { version = "=1.54.1", features = ["full"] }
x11 = "=2.21.0"

[package]
name = "oled_display"
version = "0.1.0"
edition = "2021"
publish = false

[dependencies]
embedded-graphics = "=0.8.2"
bitvec = "=1.1.1"
hidapi = { version = "=2.6.7", default-features = false, features = ["linux-native-basic-udev"] }
dbus = { version = "=0.9.12", features = ["vendored"] }
dbus-tokio = "=0.7.6"
tokio = { version = "=1.54.1", features = ["macros", "rt-multi-thread", "time", "sync"] }
tokio-stream = "=0.1.19"
async-stream = "=0.3.6"
anyhow = "=1.0.104"
sysinfo = "=0.29.11"

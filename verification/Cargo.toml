[package]
name = "rustbox"
version = "0.1.0"
edition = "2021"
publish = false

[dependencies]
regex = "1"
image = "0.25"
x11rb = "0.13"
anyhow = "1"
log = "0.4"
env_logger = "*"
libc = "0.2"
dbus = "0.9"
zbus = "*"
smol = "2"
futures-channel = "0.3"
futures-util = "0.3"
fontdb = "*"
ab_glyph = "0.2"
ttf-parser = "*"
skrifa = "*"
read-fonts = "*"
tiny-skia = "*"
terminal-emulator = "*"

[package]
name = "treemd_core"
version = "0.1.0"
edition = "2021"
publish = false

[dependencies]
unicode-width = "=0.2.3"
regex = "=1.13.1"
crossterm = "=0.29.0"
ratatui = "=0.30.2"
notify = "=8.2.1"
image = { version = "=0.25.10", default-features = false, features = ["gif", "png", "jpeg"] }
gif = "=0.14.2"
supports-color = "=3.0.2"
libc = "=0.2.191"
tempfile = "=3.27.0"
turbovault-parser = "*"
open = "*"

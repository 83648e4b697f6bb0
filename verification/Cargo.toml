[package]
name = "rlbot_gui"
version = "0.1.0"
edition = "2021"
publish = false

[dependencies]
configparser = "3"
serde = { version = "1", features = ["derive"] }
serde_json = "1"
serde_repr = "0.1"
serde-enum-str = "*"
strum = { version = "0.25", features = ["derive"] }
base64 = "0.21"
imghdr = "0.7"
shlex = "1"
ansi-to-html = "*"
sanitize-filename = "*"
regex = "1"
glob = "0.3"
rand = "0.8"
flate2 = "1"
crossbeam-channel = "0.5"
os_pipe = "1"
once_cell = "1"
lazy_static = "1"
fs_extra = "1"
zip = { version = "0.6", default-features = false, features = ["deflate"] }
sysinfo = "0.29"

[package]
name = "mute_puck"
version = "0.1.0"
edition = "2021"
publish = false

[dependencies]
ctrlc = "*"
hidapi = "*"
libspa = "*"
libspa-sys = "*"
log = "*"
nix = { version = "*", features = ["poll"] }
pipewire = "*"
pretty_env_logger = "*"
udev = "*"

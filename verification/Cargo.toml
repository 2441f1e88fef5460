[package]
name = "streamdeck"
version = "0.1.0"
edition = "2021"
publish = false

[dependencies]
hidapi = { version = "=2.6.7", default-features = false, features = ["linux-native-basic-udev"] }
image = { version = "=0.24.9", default-features = false, features = ["jpeg", "png"] }
imageproc = "=0.23.1"
log = "=0.4.34"
rusttype = "=0.9.3"
structopt = "=0.3.26"
thiserror = "=1.0.69"

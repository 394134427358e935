[package]
name = "g815_driver"
version = "0.1.0"
edition = "2021"
publish = false

[dependencies]
hidapi = { version = "=2.6.7", default-features = false, features = ["linux-native-basic-udev"] }
serde = { version = "*", features = ["derive"] }
serde_yaml = "*"
regex = "*"
crossbeam = "*"
threadpool = "*"
ctrlc = "*"
notify = "*"
log = "*"
pretty_env_logger = "*"

[package]
name = "screen_grabber"
version = "0.1.0"
edition = "2021"
publish = false

[dependencies]
druid = "=0.8.3"
druid-widget-nursery = "=0.1.0"
image = { version = "=0.24.9", default-features = false, features = ["png"] }
imageproc = { version = "=0.23.1", default-features = false }
rusttype = "=0.9.3"
serde = { version = "=1.0.229", features = ["derive"] }
serde_json = "=1.0.154"
native-dialog = "=0.6.4"
arboard = { version = "=3.7.0", default-features = false, features = ["image-data"] }

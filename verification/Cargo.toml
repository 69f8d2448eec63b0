[package]
name = "bitchat_mesh"
version = "0.1.0"
edition = "2021"
publish = false

[dependencies]
bluer = { version = "0.17", features = ["bluetoothd"] }
dbus = { version = "0.9", features = ["vendored"] }
dbus-crossroads = "0.5"
futures = "0.3"
log = "0.4"
tokio = { version = "1", features = ["rt", "sync", "time"] }
uuid = "1"

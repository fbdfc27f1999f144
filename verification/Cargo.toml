[package]
name = "rio_notifier"
version = "0.1.0"
edition = "2021"
publish = false

[dependencies]
async-channel = "=2.5.0"
futures-lite = "=2.6.1"
tracing = "=0.1.44"
zbus = "=5.19.0"
block2 = "=0.6.2"
objc = "=0.2.7"
objc2 = "=0.6.5"
objc2-foundation = "=0.3.2"
objc2-user-notifications = "=0.3.2"
windows = { version = "*", default-features = false, features = ["UI_Notifications", "Data_Xml_Dom"] }

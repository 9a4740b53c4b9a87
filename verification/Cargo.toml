[package]
name = "camera_stream"
version = "0.1.0"
edition = "2021"
publish = false

[dependencies]
arrayvec = "0.7"
dispatch2 = "0.3"
objc2 = { version = "0.6", features = ["exception"] }
objc2-av-foundation = "0.3"
objc2-core-foundation = "0.3"
objc2-core-media = "0.3"
objc2-core-video = "0.3"
objc2-foundation = "0.3"

[package]
name = "chatty"
version = "0.1.0"
edition = "2021"
publish = false

[dependencies]
anyhow = "*"
iced = { version = "=0.13.1", default-features = false, features = ["tiny-skia", "markdown"] }
image = { version = "*", default-features = false, features = ["png"] }
jiff = "*"
open = "*"
tokio = { version = "*", default-features = false, features = ["net", "sync"] }
tokio-tungstenite = "*"

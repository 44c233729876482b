[package]
name = "stepwise_tracer"
version = "0.1.0"
edition = "2021"
publish = false

[dependencies]
visioncortex = "=0.8.10"
wasm-bindgen = "=0.2.129"
web-sys = { version = "=0.3.106", features = ["console", "ImageData", "Blob", "BlobPropertyBag", "Element", "Node", "Url", "XmlSerializer", "Document", "Window"] }
serde = { version = "=1.0.229", features = ["derive"] }
tsify = "=0.5.8"
console_log = "=1.1.0"

[package]
name = "mamp"
version = "0.1.0"
edition = "2021"
publish = false

[dependencies]
bytemuck = "=1.25.2"
wgpu = { version = "29", default-features = false, features = ["webgpu", "wgsl"] }
wasm-bindgen = "0.2"
wasm-bindgen-futures = "0.4"
js-sys = "0.3"
web-sys = { version = "0.3", features = ["CanvasRenderingContext2d", "Document", "Element", "HtmlCanvasElement", "HtmlElement", "HtmlMediaElement", "HtmlVideoElement", "ImageData", "MediaDevices", "MediaStream", "MediaStreamConstraints", "MediaStreamTrack", "MediaTrackSettings", "Navigator", "Node", "Performance", "Request", "RequestInit", "Response", "Window"] }
log = "0.4"
console_log = "1"
console_error_panic_hook = "0.1"

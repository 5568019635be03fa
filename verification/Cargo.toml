[package]
name = "pixel_canvas"
version = "0.1.0"
edition = "2021"
publish = false

[dependencies]
rand = "=0.8.8"
yew = { version = "=0.22.0", features = ["csr"] }
yew-bootstrap = "=0.14.0"
gloo-timers = "=0.3.0"
wasm-bindgen = "=0.2.129"
web-sys = { version = "=0.3.106", features = ["CanvasRenderingContext2d", "HtmlCanvasElement", "ImageData", "InputEvent", "MouseEvent", "OffscreenCanvas", "OffscreenCanvasRenderingContext2d", "Window"] }

[package]
name = "fitsview"
version = "0.1.0"
edition = "2021"
publish = false

[dependencies]
bytemuck = "=1.25.2"
libm = "*"
gloo-file = "=0.4.0"
js-sys = "=0.3.106"
plotters = "=0.3.7"
plotters-canvas = "=0.3.1"
web-sys = { version = "=0.3.106", features = ["console", "Event", "EventTarget", "File", "FileList", "HtmlInputElement", "HtmlCanvasElement", "Window", "Document", "Element", "CanvasRenderingContext2d"] }
yew = { version = "=0.23.0", features = ["csr"] }

[package]
name = "mesh_viewer"
version = "0.1.0"
edition = "2021"
publish = false

[dependencies]
base64 = "0.21"
image = { version = "0.25", default-features = false, features = ["png"] }
wavefront_obj = "*"
webgl-matrix = "*"
rand = "0.9"
libmath = "*"
js-sys = "0.3"
wasm-bindgen = "0.2"
console_error_panic_hook = "0.1"
web-sys = { version = "0.3", features = ["Window", "Document", "Element", "HtmlCanvasElement", "WebGl2RenderingContext", "WebGlProgram", "WebGlShader", "WebGlBuffer", "WebGlTexture", "WebGlUniformLocation", "WebGlVertexArrayObject", "Performance", "EventTarget", "Event", "MouseEvent", "console"] }

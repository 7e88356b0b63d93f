[package]
name = "xmas_tree"
version = "0.1.0"
edition = "2021"
publish = false

[dependencies]
cgmath = "*"
console_error_panic_hook = "*"
js-sys = "*"
rand = { version = "0.8", features = ["small_rng"] }
tobj = "*"
wasm-bindgen = "*"
web-sys = { version = "*", features = ["console", "Document", "Element", "Event", "EventTarget", "HtmlCanvasElement", "HtmlElement", "MouseEvent", "Touch", "TouchEvent", "TouchList", "WebGl2RenderingContext", "WebGlBuffer", "WebGlProgram", "WebGlShader", "WebGlUniformLocation", "WebGlVertexArrayObject", "Window"] }

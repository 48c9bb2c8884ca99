[package]
name = "ninecurve"
version = "0.1.0"
edition = "2021"
publish = false

[dependencies]
nalgebra = "*"
wasm-bindgen = "*"
js-sys = "*"
console_error_panic_hook = "*"

[dependencies.web-sys]
version = "*"
features = [
    "Window",
    "Document",
    "HtmlElement",
    "HtmlCanvasElement",
    "Element",
    "CssStyleDeclaration",
    "EventTarget",
    "Event",
    "MouseEvent",
    "Node",
    "WebGl2RenderingContext",
    "WebGlProgram",
    "WebGlShader",
    "WebGlBuffer",
    "WebGlVertexArrayObject",
    "WebGlUniformLocation",
]

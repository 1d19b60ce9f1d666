[package]
name = "cubecam"
version = "0.1.0"
edition = "2021"
publish = false

[dependencies]
wasm-bindgen = "=0.2.92"
js-sys = "=0.3.69"
web-sys = { version = "=0.3.69", features = [
    "Window",
    "Document",
    "Element",
    "Node",
    "HtmlElement",
    "HtmlCanvasElement",
    "WebGl2RenderingContext",
    "WebGlProgram",
    "WebGlShader",
    "WebGlBuffer",
    "WebGlVertexArrayObject",
    "WebGlTexture",
    "WebGlUniformLocation",
    "KeyboardEvent",
    "MouseEvent",
    "Event",
    "EventTarget",
    "ImageData",
] }
nalgebra-glm = "=0.18.0"
console_error_panic_hook = "=0.1.7"

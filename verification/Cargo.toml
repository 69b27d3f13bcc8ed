[package]
name = "vorton_render"
version = "0.1.0"
edition = "2021"
publish = false

[dependencies]
js-sys = "*"
simple-error = "*"
wasm-bindgen = "*"
web-sys = { version = "*", features = ["WebGl2RenderingContext", "WebGlBuffer", "WebGlProgram", "WebGlShader", "WebGlUniformLocation", "WebGlVertexArrayObject"] }

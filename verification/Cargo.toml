[package]
name = "quacker"
version = "0.1.0"
edition = "2021"
publish = false

[dependencies]
anyhow = "*"
async-trait = "*"
js-sys = "*"
serde = { version = "*", features = ["derive"] }
wasm-bindgen = "*"
wasm-bindgen-futures = "*"
web-sys = { version = "*", features = ["Window", "Document", "Element", "Node", "HtmlElement", "HtmlCanvasElement", "HtmlImageElement", "Performance", "Response", "WebGl2RenderingContext", "console"] }

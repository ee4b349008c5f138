[package]
name = "kapp"
version = "0.1.0"
edition = "2021"
publish = false

[dependencies]
objc = "0.2"
raw-window-handle = "0.3"
wasm-bindgen = "0.2"
web-sys = { version = "0.3", features = ["Window", "Document", "Element", "HtmlElement", "HtmlCanvasElement", "CssStyleDeclaration"] }
console_error_panic_hook = "0.1"

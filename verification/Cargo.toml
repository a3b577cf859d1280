[package]
name = "yew_split"
version = "0.1.0"
edition = "2021"
publish = false

[dependencies]
js-sys = "0.3"
wasm-bindgen = "0.2"
web-sys = { version = "0.3", features = ["Document", "Element", "HtmlCollection", "HtmlElement", "Node", "Window"] }
yew = { version = "0.21", features = ["csr"] }

[package]
name = "sycamore-seoul"
version = "0.1.0"
edition = "2021"
publish = false

[dependencies]
hashbrown = "=0.14.5"
sycamore = "=0.9.4"
sycamore-router = "=0.9.4"
wasm-bindgen = "=0.2.129"
gloo-utils = "=0.2.0"
web-sys = { version = "=0.3.106", features = ["AddEventListenerOptions", "CssStyleDeclaration", "Document", "DomRect", "DomStringMap", "DomTokenList", "Element", "Event", "EventTarget", "HtmlElement", "MouseEvent", "Node", "WheelEvent", "Window"] }

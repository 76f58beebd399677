[package]
name = "panzoom"
version = "0.1.0"
edition = "2021"
publish = false

[dependencies]
approx = "=0.5.1"
console_log = "=1.1.0"
fern = "=0.7.1"
log = "=0.4.34"
wasm-bindgen = "=0.2.129"
web-sys = { version = "=0.3.106", features = ["AddEventListenerOptions", "CssStyleDeclaration", "Document", "DomRect", "Element", "Event", "EventTarget", "HtmlElement", "MouseEvent", "Node", "SvgElement", "SvgGraphicsElement", "SvgMatrix", "SvgsvgElement", "UiEvent", "WheelEvent", "Window"] }

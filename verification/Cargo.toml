[package]
name = "kardashev_ui"
version = "0.1.0"
edition = "2021"
publish = false

[dependencies]
parking_lot = "=0.12.5"
serde = { version = "=1.0.229", features = ["derive"] }
wasm-bindgen = "=0.2.130"
web-sys = { version = "=0.3.107", features = ["Document", "Element", "Event", "EventTarget", "HtmlCanvasElement", "KeyboardEvent", "MouseEvent", "UiEvent", "WheelEvent", "Window"] }

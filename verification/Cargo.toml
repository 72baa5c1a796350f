[package]
name = "hooks_core"
version = "0.1.0"
edition = "2021"
publish = false

[dependencies]
js-sys = "0.3"
wasm-bindgen = "0.2"
web-sys = { version = "0.3", features = ["Element", "Event", "EventTarget", "FileList", "HtmlInputElement", "HtmlTextAreaElement", "InputEvent", "Node"] }

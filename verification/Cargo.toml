[package]
name = "prog_rs"
version = "0.1.0"
edition = "2021"
publish = false

[dependencies]
wasm-bindgen = "*"
wasm-bindgen-futures = "*"
console_error_panic_hook = "*"
serde = { version = "1", features = ["derive"] }
serde_json = "1"
web-sys = { version = "*", features = ["Window", "Document", "Element", "HtmlElement", "HtmlInputElement", "HtmlDivElement", "HtmlCanvasElement", "HtmlButtonElement", "HtmlAnchorElement", "HtmlCollection", "CanvasRenderingContext2d", "Path2d", "PointerEvent", "MouseEvent", "Event", "EventTarget", "Node", "File", "FileList", "Blob", "Storage", "DomRect", "DomTokenList", "CssStyleDeclaration", "Crypto"] }

[package]
name = "nightshade_worker_leptos"
version = "0.1.0"
edition = "2021"
publish = false

[dependencies]
console_error_panic_hook = "=0.1.7"
js-sys = "=0.3.107"
leptos = { version = "=0.8.23", features = ["csr"] }
nalgebra-glm = "=0.21.0"
serde = { version = "=1.0.229", features = ["derive"] }
serde-wasm-bindgen = "=0.6.5"
tracing = "=0.1.44"
wasm-bindgen = "=0.2.130"
wasm-bindgen-futures = "=0.4.80"
web-sys = { version = "=0.3.107", features = ["DedicatedWorkerGlobalScope", "MessageEvent", "OffscreenCanvas", "Worker", "WorkerOptions", "WorkerType", "HtmlCanvasElement", "HtmlInputElement", "PointerEvent", "WheelEvent", "MouseEvent", "ResizeObserver", "Window", "Performance", "DomRect", "Element", "Event", "EventTarget", "Navigator", "WorkerGlobalScope"] }

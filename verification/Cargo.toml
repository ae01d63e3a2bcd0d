[package]
name = "sw_lifecycle"
version = "0.1.0"
edition = "2021"
publish = false

[dependencies]
js-sys = "0.3"
thiserror = "1"
wasm-bindgen = "0.2"
wasm-bindgen-futures = "0.4"
web-sys = { version = "0.3", features = [
    "Clients",
    "ExtendableEvent",
    "ExtendableMessageEvent",
    "Location",
    "Navigator",
    "RegistrationOptions",
    "ServiceWorker",
    "ServiceWorkerContainer",
    "ServiceWorkerGlobalScope",
    "ServiceWorkerRegistration",
    "ServiceWorkerState",
    "Url",
    "Window",
    "console",
] }

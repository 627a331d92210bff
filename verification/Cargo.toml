[package]
name = "leptos_chat_app"
version = "0.1.0"
edition = "2021"
publish = false

[dependencies]
axum = "0.7"
cfg-if = "1"
console_error_panic_hook = "0.1"
console_log = "1"
leptos = { version = "0.6", features = ["ssr"] }
leptos_axum = "0.6"
leptos_router = { version = "0.6", features = ["ssr"] }
log = "0.4"
server_fn = "0.6"
sqlx = { version = "0.7", default-features = false, features = ["sqlite", "runtime-tokio", "migrate"] }
tokio = { version = "1", features = ["rt-multi-thread", "macros", "net"] }
tower = "0.4"
tower-http = { version = "0.5", features = ["cors", "fs"] }
wasm-bindgen = "0.2"

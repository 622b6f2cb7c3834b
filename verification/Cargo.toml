[package]
name = "ipc_window_sync"
version = "0.1.0"
edition = "2021"
publish = false

[dependencies]
memmap2 = "*"
tauri = { version = "*", default-features = false, features = ["wry"] }

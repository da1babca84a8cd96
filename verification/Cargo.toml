[package]
name = "bms_lv_gui"
version = "0.1.0"
edition = "2021"
publish = false

[dependencies]
embedded-can = "0.4"
socketcan = "3"
tokio = { version = "1", features = ["rt-multi-thread", "macros", "sync", "time"] }
raylib = "5"

[package]
name = "chandra"
version = "0.1.0"
edition = "2021"
publish = false

[dependencies]
syn = { version = "=2.0.119", features = ["full"] }
proc-macro2 = "=1.0.107"
quote = "=1.0.47"
convert_case = "=0.6.0"
parking_lot = { version = "=0.12.5", features = ["arc_lock", "send_guard"] }
rayon = "=1.12.0"
rand = "=0.8.8"

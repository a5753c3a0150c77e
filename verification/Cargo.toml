[package]
name = "minimal_logging_core"
version = "0.1.0"
edition = "2021"
publish = false

[dependencies]
console = "=0.16.6"
function-wrapper = "=0.1.8"
lazy_static = "=1.5.1"
proc-macro2 = "=1.0.107"
quote = "=1.0.47"
syn = { version = "=2.0.119", features = ["full"] }

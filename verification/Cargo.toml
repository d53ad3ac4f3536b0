[package]
name = "patternfly_yew"
version = "0.1.0"
edition = "2021"
publish = false

[dependencies]
popper-rs = { version = "0.3.2", features = ["yew"] }
uuid = { version = "=1.29.0", features = ["v4"] }
yew = "=0.21.0"
yew-hooks = "0.3.4"

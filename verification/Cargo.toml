[package]
name = "html_form_actions"
version = "0.1.0"
edition = "2021"
publish = false

[dependencies]
deluxe = "0.5"
deluxe-core = "0.5"
proc-macro2 = "1"
quote = "1"
syn = { version = "2", features = ["full"] }

[dev-dependencies]
serde_urlencoded = "0.7"

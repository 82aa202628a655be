[package]
name = "gobject_impl_macros"
version = "0.1.0"
edition = "2021"
publish = false

[dependencies]
heck = "0.4"
proc-macro2 = "1"
quote = "1"
syn = { version = "1", features = ["full"] }
proc-macro-crate = "1"
proc-macro-error = "1"
glib = "0.15"

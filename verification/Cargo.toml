[package]
name = "rudof_form"
version = "0.1.0"
edition = "2021"
publish = false

[dependencies]
oxrdf = "=0.3.5"
oxttl = { version = "=0.2.5", features = ["rdf-12"] }
oxjsonld = { version = "=0.2.7", features = ["rdf-12"] }
rudof_iri = "=0.3.37"
prefixmap = "=0.3.37"
itertools = "=0.15.0"
serde = { version = "=1.0.229", features = ["derive"] }
thiserror = "=2.0.21"
wasm-bindgen = "=0.2.130"
serde-wasm-bindgen = "=0.6.5"
console_error_panic_hook = "=0.1.7"

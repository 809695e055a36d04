[package]
name = "easy_macros"
version = "0.1.0"
edition = "2021"
publish = false

[dependencies]
syn = { version = "=2.0.119", features = ["full", "extra-traits", "parsing", "printing"] }
quote = "=1.0.47"
proc-macro2 = { version = "=1.0.107", features = ["span-locations"] }
anyhow = "=1.0.104"
regex = "=1.13.1"
proc-macro-crate = "=3.5.0"
replace_with = "=0.1.8"

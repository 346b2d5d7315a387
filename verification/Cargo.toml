[package]
name = "redistribution_span"
version = "0.1.0"
edition = "2021"
publish = false

[dependencies]
twox-hash = "1.6"
num = "0.4"
num-traits = "0.2"
fnv = "1"
lazy_static = "1"
serde = { version = "1", features = ["derive"] }
serde_derive = "1"
libc = "0.2"
abomonation = "0.7"
timely = "0.31"
differential-dataflow = "0.25"

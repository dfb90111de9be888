[package]
name = "two_phase_agg"
version = "0.1.0"
edition = "2021"
publish = false

[dependencies]
datafusion-expr = "=55.1.0"
datafusion-functions-aggregate = "=55.1.0"
arrow-schema = "=59.3.0"

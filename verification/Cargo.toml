[package]
name = "count_distinct"
version = "0.1.0"
edition = "2021"
publish = false

[dependencies]
arrow = "=59.3.0"
arrow-array = "=59.3.0"
datafusion-common = "=55.1.0"
datafusion-expr = "=55.1.0"

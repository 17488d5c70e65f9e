[package]
name = "facet_pretty"
version = "0.1.0"
edition = "2021"
publish = false

[dependencies]
facet-peek = "=0.2.6"
facet-trait = "=0.2.5"

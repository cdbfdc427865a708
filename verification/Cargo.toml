[package]
name = "clanker_events"
version = "0.1.0"
edition = "2021"
publish = false

[dependencies]
hex = "=0.4.3"
substreams = "=0.8.0"
substreams-database-change = "=5.0.0"
substreams-ethereum = "=0.12.0"

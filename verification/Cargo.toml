[package]
name = "system_program_events"
version = "0.1.0"
edition = "2021"
publish = false

[dependencies]
bs58 = "0.5.1"
substreams = "0.6.4"
substreams-solana = "0.14.3"

[package]
name = "time_index_state_type_script"
version = "0.1.0"
edition = "2021"
publish = false

[dependencies]
ckb-std = "*"

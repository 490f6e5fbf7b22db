[package]
name = "qubit-fs-testkit"
version = "0.1.0"
edition = "2021"
publish = false

[dependencies]
qubit-fs = { version = "=0.2.2", features = ["async"] }
qubit-io = "=0.17.1"
object_store = "=0.14.2"
bytes = "=1.12.1"
futures-util = "=0.3.34"

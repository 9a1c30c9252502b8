[package]
name = "frb_run"
version = "0.1.0"
edition = "2021"
publish = false

[dependencies]
anyhow = "1"
console = "0.15"
log = "0.4"
notify = "6"
notify-debouncer-mini = "0.4"
serde_json = "1"

[package]
name = "todo_list"
version = "0.1.0"
edition = "2021"
publish = false

[dependencies]
chrono = "=0.4.45"
dashmap = "=5.5.3"
prost = "=0.12.6"
prost-types = "=0.12.6"
rocksdb = "=0.22.0"
tokio = { version = "=1.54.1", features = ["macros", "rt-multi-thread", "sync"] }
tonic = "=0.11.0"
tonic-reflection = "=0.11.0"

[package]
name = "tgfs"
version = "0.1.0"
edition = "2021"
publish = false

[dependencies]
rand = "=0.8.8"
libc = "=0.2.191"
log = "=0.4.35"
simple_logger = "=4.3.3"
serde = { version = "=1.0.229", features = ["derive"] }
config = "=0.14.1"
time = "=0.1.45"
tokio = { version = "=1.54.1", features = ["rt", "macros"] }
grammers-client = "=0.7.0"
grammers-session = "=0.7.0"
diesel = { version = "=2.3.14", features = ["sqlite", "chrono"] }
diesel-derive-enum = { version = "=2.1.0", features = ["sqlite"] }
fuse = "=0.3.1"
sea-orm = "=0.12.15"
sea-orm-migration = { version = "=0.12.15", default-features = false }
async-trait = "=0.1.92"

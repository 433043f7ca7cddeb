[package]
name = "minidump_processor"
version = "0.1.0"
edition = "2021"
publish = false

[dependencies]
yaxpeax-x86 = "*"
framehop = "*"
wholesym = "*"
memmap2 = "*"
object = "*"
cachemap2 = "*"
futures-util = "*"
tracing = "*"
thiserror = "*"
chrono = "*"
failure = "*"

[dev-dependencies]
test-assembler = "*"

[package]
name = "rusty_java"
version = "0.1.0"
edition = "2021"
publish = false

[dependencies]
byteorder = "=1.5.0"
hashbrown = "=0.14.5"
clap = { version = "=4.6.7", features = ["derive"] }
color-eyre = "=0.6.5"
jni = { version = "=0.21.1", features = ["invocation"] }
libtest-mimic = "=0.8.2"

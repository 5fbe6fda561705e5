[package]
name = "mitch"
version = "0.1.0"
edition = "2021"
publish = false

[dependencies]
byteorder = "=1.5.0"
rand = "=0.5.6"
names = "=0.11.0"
futures = "=0.1.31"
tokio = "=0.1.22"
tokio-tls = "=0.2.1"
native-tls = "=0.2.18"
prost = "=0.4.0"
prost-derive = "=0.4.0"
bytes = "=0.4.12"
stream-cancel = "=0.4.4"
log = "=0.4.35"
error-chain = "=0.12.4"
